//! The light client's chain of Ethereum headers.
//!
//! The newest headers are kept whole, as `unconfirmed`; once enough others
//! follow, only a header's hash is kept, among `confirmed`. Headers that a
//! reorganization passed over are kept as `uncle`.
use crate::bytes::{copy_bytes, same_bytes};
use crate::error::{result_model, Error, ErrorModel};
use vstd::prelude::*;

verus! {

/// How many headers and hashes the main chain holds at most.
pub const MAIN_HEADER_CACHE_LIMIT: usize = 500;

/// How many of the newest headers are kept whole.
pub const CONFIRM: usize = 10;

/// How many passed-over headers are kept.
pub const UNCLE_HEADER_CACHE_LIMIT: usize = 10;

/// A header of the chain: its stored bytes and the hash that they hold, or
/// why no hash can be read out of them.
#[derive(Debug)]
pub struct HeaderEntry {
    pub raw: Vec<u8>,
    pub hash: Result<Vec<u8>, String>,
}

/// What a `HeaderEntry` stands for.
#[verifier::ext_equal]
pub struct EntryModel {
    pub raw: Seq<u8>,
    pub hash: Result<Seq<u8>, Seq<char>>,
}

impl View for HeaderEntry {
    type V = EntryModel;

    open spec fn view(&self) -> EntryModel {
        EntryModel {
            raw: self.raw@,
            hash: match self.hash {
                Ok(h) => Ok(h@),
                Err(e) => Err(e@),
            },
        }
    }
}

/// The chain as the light client's cell stores it.
#[derive(Debug)]
pub struct HeaderChain {
    pub confirmed: Vec<Vec<u8>>,
    pub unconfirmed: Vec<HeaderEntry>,
    pub uncle: Vec<Vec<u8>>,
}

/// What a `HeaderChain` stands for.
#[verifier::ext_equal]
pub struct ChainModel {
    pub confirmed: Seq<Seq<u8>>,
    pub unconfirmed: Seq<EntryModel>,
    pub uncle: Seq<Seq<u8>>,
}

impl View for HeaderChain {
    type V = ChainModel;

    open spec fn view(&self) -> ChainModel {
        ChainModel {
            confirmed: byte_strings(self.confirmed@),
            unconfirmed: entry_models(self.unconfirmed@),
            uncle: byte_strings(self.uncle@),
        }
    }
}

pub open spec fn byte_strings(v: Seq<Vec<u8>>) -> Seq<Seq<u8>> {
    v.map_values(|b: Vec<u8>| b@)
}

pub open spec fn entry_models(v: Seq<HeaderEntry>) -> Seq<EntryModel> {
    v.map_values(|e: HeaderEntry| e@)
}

/// The stored bytes of some headers.
pub open spec fn raws(entries: Seq<EntryModel>) -> Seq<Seq<u8>> {
    entries.map_values(|e: EntryModel| e.raw)
}

/// The hashes of some headers.
pub open spec fn hashes(entries: Seq<EntryModel>) -> Seq<Seq<u8>> {
    entries.map_values(|e: EntryModel| e.hash->Ok_0)
}

/// Why the first header without a readable hash has none, if there is one.
pub open spec fn first_malformed(entries: Seq<EntryModel>) -> Option<Seq<char>>
    decreases entries.len(),
{
    if entries.len() == 0 {
        None
    } else if first_malformed(entries.drop_last()) is Some {
        first_malformed(entries.drop_last())
    } else {
        match entries.last().hash {
            Ok(_) => None,
            Err(e) => Some(e),
        }
    }
}

/// Whether a known block, given by its hash if it has one, has this hash.
pub open spec fn is_block(known: Option<[u8; 32]>, hash: Seq<u8>) -> bool {
    known is Some && known->0@ == hash
}

/// Whether `k` is the place right after the last known block, the newest one
/// aside, that has this hash; 0 if none has it.
pub open spec fn is_fork_index(known: Seq<Option<[u8; 32]>>, parent: Seq<u8>, k: int) -> bool {
    &&& 0 <= k < known.len()
    &&& k == 0 || is_block(known[k - 1], parent)
    &&& forall|j: int| k <= j < known.len() - 1 ==> !is_block(#[trigger] known[j], parent)
}

/// Where a branch that starts after the block `parent` leaves the known blocks.
pub open spec fn fork_index(known: Seq<Option<[u8; 32]>>, parent: Seq<u8>) -> int {
    choose|k: int| is_fork_index(known, parent, k)
}

proof fn lemma_fork_index(known: Seq<Option<[u8; 32]>>, parent: Seq<u8>, k: int)
    requires
        is_fork_index(known, parent, k),
    ensures
        fork_index(known, parent) == k,
{
    let c = fork_index(known, parent);
    assert(is_fork_index(known, parent, c));
    if k < c {
        assert(!is_block(known[c - 1], parent));
    } else if c < k {
        assert(!is_block(known[k - 1], parent));
    }
}

/// How many headers stop being kept whole when `new_count` others are about to
/// follow `len` of them.
pub open spec fn extension_demoted(len: int, new_count: int) -> int {
    if len + new_count <= CONFIRM {
        0
    } else if new_count >= CONFIRM {
        len
    } else {
        len + new_count - CONFIRM
    }
}

/// The chain with room made for `new_count` headers: the oldest whole headers
/// are down to their hashes, and the oldest hashes are gone.
pub open spec fn with_room(chain: ChainModel, new_count: int) -> ChainModel {
    let d = extension_demoted(chain.unconfirmed.len() as int, new_count);
    let confirmed = chain.confirmed + hashes(chain.unconfirmed.take(d));
    let over = chain.confirmed.len() + chain.unconfirmed.len() + new_count
        - MAIN_HEADER_CACHE_LIMIT;
    ChainModel {
        confirmed: confirmed.skip(
            if over > 0 {
                over
            } else {
                0
            },
        ),
        unconfirmed: chain.unconfirmed.skip(d),
        uncle: chain.uncle,
    }
}

/// How many items leave a list of `len` items at the front while `added` items
/// come in at the back one by one, each of which drives one item out as soon
/// as there are more than `limit`.
pub open spec fn driven_out(len: int, added: int, limit: int) -> int {
    if len >= limit {
        added
    } else if len + added <= limit {
        0
    } else {
        len + added - limit
    }
}

/// The passed-over headers once some more were added. A list that is within
/// its limit stays so, at the cost of its oldest items.
pub open spec fn with_uncles(uncle: Seq<Seq<u8>>, added: Seq<Seq<u8>>) -> Seq<Seq<u8>> {
    let all = uncle + added;
    if uncle.len() > UNCLE_HEADER_CACHE_LIMIT || all.len() <= UNCLE_HEADER_CACHE_LIMIT {
        all
    } else {
        all.skip(all.len() - UNCLE_HEADER_CACHE_LIMIT)
    }
}

/// The chain once a branch left it after its first `k` whole headers: the
/// others are no longer part of it, but passed over.
pub open spec fn with_branch(chain: ChainModel, k: int) -> ChainModel {
    ChainModel {
        confirmed: chain.confirmed,
        unconfirmed: chain.unconfirmed.take(k),
        uncle: with_uncles(chain.uncle, raws(chain.unconfirmed.skip(k))),
    }
}

/// The chain once `infos` were added one by one, each of which brings the
/// oldest whole header down to its hash as soon as there are too many.
pub open spec fn with_headers(chain: ChainModel, infos: Seq<EntryModel>) -> Result<
    ChainModel,
    ErrorModel,
> {
    let all = chain.unconfirmed + infos;
    let d = driven_out(chain.unconfirmed.len() as int, infos.len() as int, CONFIRM as int);
    match first_malformed(all.take(d)) {
        Some(e) => Err(ErrorModel::MalformedHeader(e)),
        None => Ok(
            ChainModel {
                confirmed: (chain.confirmed + hashes(all.take(d))).skip(
                    driven_out(
                        chain.confirmed.len() as int,
                        d,
                        MAIN_HEADER_CACHE_LIMIT as int,
                    ),
                ),
                unconfirmed: all.skip(d),
                uncle: chain.uncle,
            },
        ),
    }
}

/// The chain once `infos` were added, when `new_count` headers start after the
/// block `parent`: right after the newest known block, or on a branch.
pub open spec fn updated_chain(
    chain: ChainModel,
    known: Seq<Option<[u8; 32]>>,
    parent: Seq<u8>,
    new_count: int,
    infos: Seq<EntryModel>,
) -> Result<ChainModel, ErrorModel> {
    if is_block(known.last(), parent) {
        let d = extension_demoted(chain.unconfirmed.len() as int, new_count);
        match first_malformed(chain.unconfirmed.take(d)) {
            Some(e) => Err(ErrorModel::MalformedHeader(e)),
            None => {
                let room = with_room(chain, new_count);
                Ok(ChainModel { unconfirmed: room.unconfirmed + infos, ..room })
            },
        }
    } else {
        with_headers(with_branch(chain, fork_index(known, parent)), infos)
    }
}

/// The stored header that the new ones follow.
pub open spec fn tail_header(
    chain: ChainModel,
    known: Seq<Option<[u8; 32]>>,
    parent: Seq<u8>,
    new_count: int,
) -> Result<Seq<u8>, ErrorModel> {
    if is_block(known.last(), parent) {
        let d = extension_demoted(chain.unconfirmed.len() as int, new_count);
        match first_malformed(chain.unconfirmed.take(d)) {
            Some(e) => Err(ErrorModel::MalformedHeader(e)),
            None => Ok(chain.unconfirmed.last().raw),
        }
    } else {
        Ok(chain.unconfirmed[fork_index(known, parent) - 1].raw)
    }
}

/// Whether `new_count` headers after the block `parent` can be worked into the
/// chain. Right after the newest known block they are fewer than are kept
/// whole, and the chain ends with a whole header, unless the chain is found to
/// be malformed before that matters. On a branch, the branch leaves the known
/// blocks behind at least one of them, which the chain keeps whole, and every
/// block that is looked at has a hash.
pub open spec fn update_accepted(
    chain: ChainModel,
    known: Seq<Option<[u8; 32]>>,
    parent: Seq<u8>,
    new_count: int,
) -> bool {
    let len = chain.unconfirmed.len() as int;
    &&& known.len() > 0
    &&& known.last() is Some
    &&& if is_block(known.last(), parent) {
        ||| first_malformed(chain.unconfirmed.take(extension_demoted(len, new_count))) is Some
        ||| len > 0 && new_count < CONFIRM
    } else {
        let k = fork_index(known, parent);
        &&& 0 < k <= len
        &&& forall|j: int| k - 1 <= j < known.len() ==> (#[trigger] known[j]) is Some
    }
}

/// Everything the main chain stores: the hashes, then the whole headers.
pub open spec fn main_chain(chain: ChainModel) -> Seq<Seq<u8>> {
    chain.confirmed + raws(chain.unconfirmed)
}

proof fn lemma_first_malformed_step(entries: Seq<EntryModel>, i: int)
    requires
        0 <= i < entries.len(),
    ensures
        first_malformed(entries.take(i + 1)) == (if first_malformed(entries.take(i)) is Some {
            first_malformed(entries.take(i))
        } else {
            match entries[i].hash {
                Ok(_) => None,
                Err(e) => Some(e),
            }
        }),
{
    assert(entries.take(i + 1).drop_last() =~= entries.take(i));
}

/// Once a header is malformed, so is every longer list that begins alike.
proof fn lemma_first_malformed_stays(entries: Seq<EntryModel>, i: int, j: int)
    requires
        0 <= i <= j <= entries.len(),
        first_malformed(entries.take(i)) is Some,
    ensures
        first_malformed(entries.take(j)) == first_malformed(entries.take(i)),
    decreases j - i,
{
    if i < j {
        lemma_first_malformed_stays(entries, i, j - 1);
        lemma_first_malformed_step(entries, j - 1);
    }
}

/// Whether a known block has this hash.
fn is_known_block(known: &Option<[u8; 32]>, hash: &[u8; 32]) -> (r: bool)
    ensures
        r == is_block(*known, hash@),
{
    match known {
        Some(h) => same_bytes(h.as_slice(), hash.as_slice()),
        None => false,
    }
}

/// Finds where a branch leaves the known blocks, from the newest one back.
pub fn find_fork(known: &Vec<Option<[u8; 32]>>, parent: &[u8; 32]) -> (r: usize)
    requires
        known.len() > 0,
    ensures
        r == fork_index(known@, parent@),
        is_fork_index(known@, parent@, r as int),
{
    let mut k: usize = known.len() - 1;
    while k > 0
        invariant_except_break
            k < known.len(),
            forall|j: int| k <= j < known.len() - 1 ==> !is_block(#[trigger] known[j], parent@),
        ensures
            is_fork_index(known@, parent@, k as int),
        decreases k,
    {
        if is_known_block(&known[k - 1], parent) {
            break;
        }
        k = k - 1;
    }
    proof {
        lemma_fork_index(known@, parent@, k as int);
    }
    k
}

/// Brings the oldest whole header down to its hash.
fn confirm_oldest(chain: HeaderChain) -> (r: Result<HeaderChain, Error>)
    requires
        chain.unconfirmed.len() > 0,
    ensures
        result_model(r) == (match chain@.unconfirmed[0].hash {
            Ok(h) => Ok::<ChainModel, ErrorModel>(
                ChainModel {
                    confirmed: chain@.confirmed.push(h),
                    unconfirmed: chain@.unconfirmed.skip(1),
                    uncle: chain@.uncle,
                },
            ),
            Err(e) => Err(ErrorModel::MalformedHeader(e)),
        }),
{
    let mut chain = chain;
    let ghost before = chain@;
    let entry = chain.unconfirmed.remove(0);
    match entry.hash {
        Ok(h) => {
            chain.confirmed.push(h);
            assert(chain@.confirmed =~= before.confirmed.push(h@));
            assert(chain@.unconfirmed =~= before.unconfirmed.skip(1));
            assert(chain@.uncle =~= before.uncle);
            Ok(chain)
        },
        Err(e) => Err(Error::MalformedHeader(e)),
    }
}

/// Drops the oldest hash.
fn forget_oldest(chain: HeaderChain) -> (r: HeaderChain)
    requires
        chain.confirmed.len() > 0,
    ensures
        r@ == (ChainModel { confirmed: chain@.confirmed.skip(1), ..chain@ }),
{
    let mut chain = chain;
    let ghost before = chain@;
    chain.confirmed.remove(0);
    assert(chain@.confirmed =~= before.confirmed.skip(1));
    assert(chain@ =~= (ChainModel { confirmed: before.confirmed.skip(1), ..before }));
    chain
}

/// Adds one header, whole.
fn append_header(chain: HeaderChain, info: HeaderEntry) -> (r: HeaderChain)
    ensures
        r@ == (ChainModel { unconfirmed: chain@.unconfirmed.push(info@), ..chain@ }),
{
    let mut chain = chain;
    let ghost before = chain@;
    chain.unconfirmed.push(info);
    assert(chain@.unconfirmed =~= before.unconfirmed.push(info@));
    assert(chain@ =~= (ChainModel { unconfirmed: before.unconfirmed.push(info@), ..before }));
    chain
}

/// Counts the headers that stop being kept whole.
fn count_demoted(len: usize, new_count: usize) -> (r: usize)
    ensures
        r == extension_demoted(len as int, new_count as int),
{
    if new_count >= CONFIRM {
        if len == 0 && new_count == CONFIRM {
            0
        } else {
            len
        }
    } else if len > CONFIRM - new_count {
        len - (CONFIRM - new_count)
    } else {
        0
    }
}

/// Makes room for headers that follow the newest known block.
fn make_room(chain: HeaderChain, new_count: usize) -> (r: Result<HeaderChain, Error>)
    requires
        ({
            let len = chain.unconfirmed.len() as int;
            ||| first_malformed(
                chain@.unconfirmed.take(extension_demoted(len, new_count as int)),
            ) is Some
            ||| len > 0 && new_count < CONFIRM
        }),
    ensures
        result_model(r) == (match first_malformed(
            chain@.unconfirmed.take(
                extension_demoted(chain.unconfirmed.len() as int, new_count as int),
            ),
        ) {
            Some(e) => Err::<ChainModel, ErrorModel>(ErrorModel::MalformedHeader(e)),
            None => Ok(with_room(chain@, new_count as int)),
        }),
{
    let mut c = chain;
    let ghost start = chain@;
    let len: usize = c.unconfirmed.len();
    let demoted: usize = count_demoted(len, new_count);
    let ghost d = demoted as int;
    assert(start.unconfirmed.len() == len);
    let mut i: usize = 0;
    assert(c@.confirmed =~= start.confirmed + hashes(start.unconfirmed.take(0)));
    assert(c@.unconfirmed =~= start.unconfirmed.skip(0));
    while i < demoted
        invariant
            i <= demoted <= start.unconfirmed.len(),
            start == chain@,
            d == demoted,
            d == extension_demoted(chain.unconfirmed.len() as int, new_count as int),
            first_malformed(start.unconfirmed.take(i as int)) is None,
            c@.confirmed == start.confirmed + hashes(start.unconfirmed.take(i as int)),
            c@.unconfirmed == start.unconfirmed.skip(i as int),
            c@.uncle == start.uncle,
        decreases demoted - i,
    {
        proof {
            lemma_first_malformed_step(start.unconfirmed, i as int);
        }
        assert(c@.unconfirmed.len() == c.unconfirmed.len());
        assert(c@.unconfirmed[0] == start.unconfirmed[i as int]);
        let ghost before = c@;
        match confirm_oldest(c) {
            Ok(next) => {
                c = next;
            },
            Err(e) => {
                proof {
                    lemma_first_malformed_stays(start.unconfirmed, i + 1, d);
                }
                return Err(e);
            },
        }
        assert(hashes(start.unconfirmed.take(i + 1)) =~= hashes(
            start.unconfirmed.take(i as int),
        ).push(start.unconfirmed[i as int].hash->Ok_0));
        assert(c@.confirmed =~= start.confirmed + hashes(start.unconfirmed.take(i + 1)));
        assert(c@.unconfirmed =~= start.unconfirmed.skip(i + 1));
        i = i + 1;
    }
    let ghost confirmed = c@.confirmed;
    let whole: usize = c.unconfirmed.len();
    assert(whole == len - demoted);
    let hash_limit: usize = MAIN_HEADER_CACHE_LIMIT - (whole + new_count);
    let ghost mut dropped: int = 0;
    assert(c@.confirmed =~= confirmed.skip(0));
    while c.confirmed.len() > hash_limit
        invariant
            0 <= dropped <= confirmed.len(),
            c@.confirmed == confirmed.skip(dropped),
            c@.unconfirmed == start.unconfirmed.skip(d),
            c@.uncle == start.uncle,
            dropped == 0 || confirmed.len() - dropped >= hash_limit,
        decreases c.confirmed.len(),
    {
        assert(c@.confirmed.len() == c.confirmed.len());
        c = forget_oldest(c);
        proof {
            dropped = dropped + 1;
        }
        assert(c@.confirmed =~= confirmed.skip(dropped));
        assert(c@.confirmed.len() == c.confirmed.len());
    }
    assert(c@.confirmed.len() == c.confirmed.len());
    assert(c@ =~= with_room(start, new_count as int));
    Ok(c)
}

/// Records one passed-over header, and forgets the oldest one when there is no
/// more room.
fn record_uncle(chain: HeaderChain, raw: Vec<u8>) -> (r: HeaderChain)
    ensures
        r@ == (ChainModel { uncle: with_uncles(chain@.uncle, seq![raw@]), ..chain@ }),
{
    let mut c = chain;
    let ghost before = c@;
    assert(before.uncle.len() == c.uncle.len());
    if c.uncle.len() == UNCLE_HEADER_CACHE_LIMIT {
        c.uncle.remove(0);
    }
    c.uncle.push(raw);
    assert(c@.uncle =~= with_uncles(before.uncle, seq![raw@]));
    assert(c@ =~= (ChainModel { uncle: with_uncles(before.uncle, seq![raw@]), ..before }));
    c
}

proof fn lemma_with_uncles_step(uncle: Seq<Seq<u8>>, added: Seq<Seq<u8>>, next: Seq<u8>)
    ensures
        with_uncles(with_uncles(uncle, added), seq![next]) == with_uncles(
            uncle,
            added.push(next),
        ),
{
    assert(with_uncles(with_uncles(uncle, added), seq![next]) =~= with_uncles(
        uncle,
        added.push(next),
    ));
}

/// Lets a branch leave the chain after its first `k` whole headers.
fn take_branch(chain: HeaderChain, k: usize) -> (r: HeaderChain)
    requires
        k <= chain.unconfirmed.len(),
    ensures
        r@ == with_branch(chain@, k as int),
{
    let mut c = chain;
    let ghost start = c@;
    let ghost u = start.unconfirmed;
    let ghost mut i: int = k as int;
    assert(u.len() == c.unconfirmed.len());
    assert(c@.unconfirmed =~= u.take(k as int) + u.skip(i));
    assert(start.uncle + raws(u.subrange(k as int, i)) =~= start.uncle);
    while c.unconfirmed.len() > k
        invariant
            k <= i <= u.len(),
            c@.confirmed == start.confirmed,
            c@.unconfirmed == u.take(k as int) + u.skip(i),
            c@.uncle == with_uncles(start.uncle, raws(u.subrange(k as int, i))),
        decreases c.unconfirmed.len(),
    {
        let ghost moved = u.subrange(k as int, i);
        let ghost before = c@;
        assert(c@.unconfirmed.len() == c.unconfirmed.len());
        let entry = c.unconfirmed.remove(k);
        assert(entry@ == before.unconfirmed[k as int]);
        assert(entry@ == u[i]);
        assert(c@.unconfirmed =~= before.unconfirmed.remove(k as int));
        assert(c@.unconfirmed =~= u.take(k as int) + u.skip(i + 1));
        c = record_uncle(c, entry.raw);
        proof {
            assert(u.subrange(k as int, i + 1) =~= moved.push(u[i]));
            assert(raws(moved.push(u[i])) =~= raws(moved).push(u[i].raw));
            lemma_with_uncles_step(start.uncle, raws(moved), u[i].raw);
            i = i + 1;
        }
        assert(c@.unconfirmed.len() == c.unconfirmed.len());
    }
    assert(c@.unconfirmed.len() == c.unconfirmed.len());
    assert(u.subrange(k as int, i) =~= u.skip(k as int));
    assert(c@ =~= with_branch(start, k as int));
    c
}

/// The list of whole headers gets one more at its end.
proof fn lemma_append_step(all: Seq<EntryModel>, end: int, d: int)
    requires
        0 <= d <= end < all.len(),
    ensures
        all.take(end).skip(d).push(all[end]) == all.take(end + 1).skip(d),
        all.take(end + 1).skip(d)[0] == all[d],
{
    assert(all.take(end).skip(d).push(all[end]) =~= all.take(end + 1).skip(d));
}

/// The oldest whole header is down to its hash, and then the oldest hash is
/// gone.
proof fn lemma_demote_step(
    confirmed: Seq<Seq<u8>>,
    all: Seq<EntryModel>,
    end: int,
    d: int,
    f: int,
)
    requires
        0 <= d < end <= all.len(),
        0 <= f <= confirmed.len() + d,
        all[d].hash is Ok,
    ensures
        (confirmed + hashes(all.take(d))).skip(f).push(all[d].hash->Ok_0) == (confirmed + hashes(
            all.take(d + 1),
        )).skip(f),
        all.take(end).skip(d).skip(1) == all.take(end).skip(d + 1),
        (confirmed + hashes(all.take(d + 1))).skip(f).skip(1) == (confirmed + hashes(
            all.take(d + 1),
        )).skip(f + 1),
        (confirmed + hashes(all.take(d + 1))).skip(f).len() == confirmed.len() + d + 1 - f,
{
    let h = all[d].hash->Ok_0;
    assert(hashes(all.take(d + 1)) =~= hashes(all.take(d)).push(h));
    let longer = confirmed + hashes(all.take(d + 1));
    assert((confirmed + hashes(all.take(d))).skip(f).push(h) =~= longer.skip(f));
    assert(all.take(end).skip(d).skip(1) =~= all.take(end).skip(d + 1));
    assert(longer.skip(f).skip(1) =~= longer.skip(f + 1));
}

/// Adds headers on a branch one by one.
fn add_headers(chain: HeaderChain, infos: Vec<HeaderEntry>) -> (r: Result<HeaderChain, Error>)
    ensures
        result_model(r) == with_headers(chain@, entry_models(infos@)),
{
    let mut c = chain;
    let ghost start = c@;
    let ghost news = entry_models(infos@);
    let ghost all = start.unconfirmed + news;
    let mut rest = infos;
    let ghost mut n: int = 0;
    let ghost mut d: int = 0;
    let ghost mut f: int = 0;
    proof {
        assert(all.take(start.unconfirmed.len() as int).skip(0) =~= start.unconfirmed);
        assert(start.confirmed + hashes(all.take(0)) =~= start.confirmed);
        assert(start.confirmed.skip(0) =~= start.confirmed);
        assert(rest@.skip(0) =~= rest@);
        assert(infos@.skip(0) =~= infos@);
    }
    while rest.len() > 0
        invariant
            start == chain@,
            news == entry_models(infos@),
            all == start.unconfirmed + news,
            0 <= n <= news.len(),
            rest@ == infos@.skip(n),
            d == driven_out(start.unconfirmed.len() as int, n, CONFIRM as int),
            f == driven_out(start.confirmed.len() as int, d, MAIN_HEADER_CACHE_LIMIT as int),
            first_malformed(all.take(d)) is None,
            c@.confirmed == (start.confirmed + hashes(all.take(d))).skip(f),
            c@.unconfirmed == all.take(start.unconfirmed.len() + n).skip(d),
            c@.uncle == start.uncle,
        decreases rest.len(),
    {
        let info = rest.remove(0);
        proof {
            assert(rest@ =~= infos@.skip(n + 1));
            assert(info == infos@[n]);
            assert(info@ == news[n]);
        }
        proof {
            lemma_append_step(all, start.unconfirmed.len() + n, d);
        }
        c = append_header(c, info);
        proof {
            n = n + 1;
        }
        assert(c@.unconfirmed.len() == c.unconfirmed.len());
        if c.unconfirmed.len() > CONFIRM {
            proof {
                lemma_first_malformed_step(all, d);
            }
            assert(c@.unconfirmed[0] == all[d]);
            match confirm_oldest(c) {
                Ok(next) => {
                    c = next;
                },
                Err(e) => {
                    proof {
                        let end = driven_out(
                            start.unconfirmed.len() as int,
                            news.len() as int,
                            CONFIRM as int,
                        );
                        lemma_first_malformed_stays(all, d + 1, end);
                    }
                    return Err(e);
                },
            }
            proof {
                lemma_demote_step(start.confirmed, all, start.unconfirmed.len() + n, d, f);
                d = d + 1;
            }
            assert(c@.confirmed.len() == c.confirmed.len());
            if c.confirmed.len() > MAIN_HEADER_CACHE_LIMIT {
                c = forget_oldest(c);
                proof {
                    f = f + 1;
                }
            }
        }
    }
    assert(n == news.len());
    assert(all.take(all.len() as int) =~= all);
    assert(c@ =~= with_headers(start, news)->Ok_0);
    Ok(c)
}

/// Works the headers `infos` into the chain. `new_count` headers start after
/// the block `parent`, and `known` are the hashes of the known blocks, the
/// newest last.
pub fn update_chain(
    chain: HeaderChain,
    known: &Vec<Option<[u8; 32]>>,
    parent: &[u8; 32],
    new_count: usize,
    infos: Vec<HeaderEntry>,
) -> (r: Result<HeaderChain, Error>)
    requires
        update_accepted(chain@, known@, parent@, new_count as int),
    ensures
        result_model(r) == updated_chain(
            chain@,
            known@,
            parent@,
            new_count as int,
            entry_models(infos@),
        ),
{
    assert(chain@.unconfirmed.len() == chain.unconfirmed.len());
    let newest: usize = known.len() - 1;
    if is_known_block(&known[newest], parent) {
        let mut infos = infos;
        let ghost news = infos@;
        match make_room(chain, new_count) {
            Ok(room) => {
                let mut c = room;
                let ghost before = c@;
                c.unconfirmed.append(&mut infos);
                assert(c@.unconfirmed =~= before.unconfirmed + entry_models(news));
                assert(c@ =~= (ChainModel {
                    unconfirmed: before.unconfirmed + entry_models(news),
                    ..before
                }));
                Ok(c)
            },
            Err(e) => Err(e),
        }
    } else {
        let k: usize = find_fork(known, parent);
        add_headers(take_branch(chain, k), infos)
    }
}

/// Says why the first of `count` headers without a readable hash has none.
fn find_malformed(entries: &Vec<HeaderEntry>, count: usize) -> (r: Option<String>)
    requires
        count <= entries.len(),
    ensures
        match r {
            Some(e) => first_malformed(entry_models(entries@).take(count as int)) == Some(e@),
            None => first_malformed(entry_models(entries@).take(count as int)) is None,
        },
{
    let ghost u = entry_models(entries@);
    let mut i: usize = 0;
    while i < count
        invariant
            i <= count <= entries.len(),
            u == entry_models(entries@),
            first_malformed(u.take(i as int)) is None,
        decreases count - i,
    {
        proof {
            lemma_first_malformed_step(u, i as int);
        }
        if let Err(e) = &entries[i].hash {
            proof {
                lemma_first_malformed_stays(u, i + 1, count as int);
            }
            return Some(e.clone());
        }
        i = i + 1;
    }
    None
}

/// Checks whether headers can be worked into the chain.
pub fn can_update(
    chain: &HeaderChain,
    known: &Vec<Option<[u8; 32]>>,
    parent: &[u8; 32],
    new_count: usize,
) -> (r: bool)
    ensures
        r == update_accepted(chain@, known@, parent@, new_count as int),
{
    let len: usize = chain.unconfirmed.len();
    assert(chain@.unconfirmed.len() == len);
    if known.len() == 0 {
        return false;
    }
    let newest: usize = known.len() - 1;
    if known[newest].is_none() {
        return false;
    }
    if is_known_block(&known[newest], parent) {
        let demoted: usize = count_demoted(len, new_count);
        return len > 0 && new_count < CONFIRM || find_malformed(
            &chain.unconfirmed,
            demoted,
        ).is_some();
    }
    let k: usize = find_fork(known, parent);
    if k == 0 || k > len {
        return false;
    }
    let mut j: usize = k - 1;
    while j < known.len()
        invariant
            k - 1 <= j <= known.len(),
            known.len() > 0,
            !is_block(known@.last(), parent@),
            0 < k == fork_index(known@, parent@),
            forall|i: int| k - 1 <= i < j ==> (#[trigger] known[i]) is Some,
        decreases known.len() - j,
    {
        if known[j].is_none() {
            return false;
        }
        j = j + 1;
    }
    true
}

/// Finds the stored header that the new ones follow.
pub fn find_tail(
    chain: &HeaderChain,
    known: &Vec<Option<[u8; 32]>>,
    parent: &[u8; 32],
    new_count: usize,
) -> (r: Result<Vec<u8>, Error>)
    requires
        update_accepted(chain@, known@, parent@, new_count as int),
    ensures
        result_model(r) == tail_header(chain@, known@, parent@, new_count as int),
{
    let len: usize = chain.unconfirmed.len();
    assert(chain@.unconfirmed.len() == len);
    let newest: usize = known.len() - 1;
    if is_known_block(&known[newest], parent) {
        let demoted: usize = count_demoted(len, new_count);
        match find_malformed(&chain.unconfirmed, demoted) {
            Some(e) => return Err(Error::MalformedHeader(e)),
            None => {},
        }
        Ok(copy_bytes(chain.unconfirmed[len - 1].raw.as_slice()))
    } else {
        let k: usize = find_fork(known, parent);
        Ok(copy_bytes(chain.unconfirmed[k - 1].raw.as_slice()))
    }
}

/// Splits a chain into what is stored of it: the main chain, and the
/// passed-over headers.
pub fn store_chain(chain: HeaderChain) -> (r: (Vec<Vec<u8>>, Vec<Vec<u8>>))
    ensures
        byte_strings(r.0@) == main_chain(chain@),
        byte_strings(r.1@) == chain@.uncle,
{
    let mut main = chain.confirmed;
    let mut rest = chain.unconfirmed;
    let ghost u = chain@.unconfirmed;
    let ghost mut i: int = 0;
    assert(entry_models(rest@) =~= u.skip(0));
    assert(byte_strings(main@) =~= chain@.confirmed + raws(u.take(0)));
    while rest.len() > 0
        invariant
            0 <= i <= u.len(),
            entry_models(rest@) == u.skip(i),
            byte_strings(main@) == chain@.confirmed + raws(u.take(i)),
        decreases rest.len(),
    {
        assert(entry_models(rest@).len() == rest@.len());
        let ghost before = main@;
        let ghost left = entry_models(rest@);
        let entry = rest.remove(0);
        assert(entry@ == left[0]);
        assert(entry_models(rest@) =~= left.skip(1));
        assert(left.skip(1) =~= u.skip(i + 1));
        main.push(entry.raw);
        assert(raws(u.take(i + 1)) =~= raws(u.take(i)).push(u[i].raw));
        assert(byte_strings(main@) =~= byte_strings(before).push(u[i].raw));
        assert(byte_strings(main@) =~= chain@.confirmed + raws(u.take(i + 1)));
        proof {
            i = i + 1;
        }
    }
    assert(entry_models(rest@).len() == rest@.len());
    assert(u.take(i) =~= u);
    (main, chain.uncle)
}

} // verus!
