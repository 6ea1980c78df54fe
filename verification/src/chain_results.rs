//! What the light client's chain holds once headers were worked into it, item by
//! item, and when they are refused.
use crate::chain::{
    first_malformed, fork_index, main_chain, tail_header, update_accepted, updated_chain,
    with_branch, ChainModel, EntryModel, HeaderChain, CONFIRM, MAIN_HEADER_CACHE_LIMIT,
    UNCLE_HEADER_CACHE_LIMIT,
};
use crate::chain_laws::law_fork_index_exists;
use crate::error::ErrorModel;
use vstd::prelude::*;

verus! {

/// Whether a known block has this hash.
pub open spec fn has_hash(known: Option<[u8; 32]>, hash: Seq<u8>) -> bool {
    known matches Some(h) && h@ == hash
}

/// Whether the first `count` of some headers all have a readable hash.
pub open spec fn all_readable(entries: Seq<EntryModel>, count: int) -> bool {
    forall|i: int| 0 <= i < count ==> (#[trigger] entries[i]).hash is Ok
}

/// Whether `e` says what is wrong with the first header without a readable hash,
/// which is among the first `count`.
pub open spec fn is_first_unreadable(
    entries: Seq<EntryModel>,
    count: int,
    e: ErrorModel,
) -> bool {
    exists|i: int|
        0 <= i < count && (#[trigger] entries[i]).hash is Err && e
            == ErrorModel::MalformedHeader(entries[i].hash->Err_0) && all_readable(entries, i)
}

/// The larger of two numbers.
pub open spec fn larger(a: int, b: int) -> int {
    if a < b {
        b
    } else {
        a
    }
}

/// The smaller of two numbers.
pub open spec fn smaller(a: int, b: int) -> int {
    if a < b {
        a
    } else {
        b
    }
}

/// Whether `part` is what is left of `hashes`, and behind them of the hashes of
/// the first `count` entries, once the first `gone` items are gone.
pub open spec fn is_hash_list(
    part: Seq<Seq<u8>>,
    hashes: Seq<Seq<u8>>,
    entries: Seq<EntryModel>,
    count: int,
    gone: int,
) -> bool {
    &&& part.len() == hashes.len() + count - gone
    &&& forall|i: int|
        0 <= i < part.len() ==> #[trigger] part[i] == (if i + gone < hashes.len() {
            hashes[i + gone]
        } else {
            entries[i + gone - hashes.len()].hash->Ok_0
        })
}

/// Whether a branch that starts after the block `parent` leaves `k` of the known
/// blocks behind it: the last of them is `parent`, and no later one is.
pub open spec fn branches_at(known: Seq<Option<[u8; 32]>>, parent: Seq<u8>, k: int) -> bool {
    &&& 0 < k < known.len()
    &&& has_hash(known[k - 1], parent)
    &&& forall|j: int| k <= j < known.len() ==> !has_hash(#[trigger] known[j], parent)
}

/// The chain after headers that follow the newest known block. They stand behind
/// all others, and the newest ones stay whole, as many as are kept whole. The
/// others before them are down to their hashes, behind the older hashes. The
/// oldest hashes are gone, as many as there are too many in all. The passed-over
/// headers are as they were.
pub open spec fn is_extension_result(
    after: ChainModel,
    chain: ChainModel,
    new_count: int,
    infos: Seq<EntryModel>,
) -> bool {
    let whole = chain.unconfirmed.len() + new_count;
    let due = larger(0, whole - CONFIRM);
    let over = larger(0, chain.confirmed.len() + whole - MAIN_HEADER_CACHE_LIMIT);
    &&& after.unconfirmed == (chain.unconfirmed + infos).skip(due)
    &&& all_readable(chain.unconfirmed, due)
    &&& is_hash_list(after.confirmed, chain.confirmed, chain.unconfirmed, due, over)
    &&& after.uncle == chain.uncle
}

/// The chain after headers on a branch that leaves `k` whole headers behind it.
/// They stand behind the block that they follow, and what stood there before is
/// passed over. The newest headers stay whole, as many as are kept whole or were
/// before the branch. The others are down to their hashes, behind the older
/// hashes, of which the oldest are gone, as many as come in beyond the limit. Of
/// the passed-over headers the newest are kept.
pub open spec fn is_branch_result(
    after: ChainModel,
    chain: ChainModel,
    k: int,
    infos: Seq<EntryModel>,
) -> bool {
    let all = chain.unconfirmed.take(k) + infos;
    let whole = smaller(all.len() as int, larger(k, CONFIRM as int));
    let due = all.len() - whole;
    let hashes = chain.confirmed.len() + due;
    let kept = smaller(
        hashes,
        larger(chain.confirmed.len() as int, MAIN_HEADER_CACHE_LIMIT as int),
    );
    let uncles = chain.uncle.len() + chain.unconfirmed.len() - k;
    let uncles_kept = if chain.uncle.len() <= UNCLE_HEADER_CACHE_LIMIT {
        smaller(uncles, UNCLE_HEADER_CACHE_LIMIT as int)
    } else {
        uncles
    };
    let gone = uncles - uncles_kept;
    &&& after.unconfirmed == all.skip(due)
    &&& all_readable(all, due)
    &&& is_hash_list(after.confirmed, chain.confirmed, all, due, hashes - kept)
    &&& after.uncle.len() == uncles_kept
    &&& forall|i: int|
        0 <= i < uncles_kept ==> #[trigger] after.uncle[i] == (if i + gone < chain.uncle.len() {
            chain.uncle[i + gone]
        } else {
            chain.unconfirmed[i + gone - chain.uncle.len() + k].raw
        })
}

proof fn lemma_first_malformed(entries: Seq<EntryModel>)
    ensures
        first_malformed(entries) is None <==> all_readable(entries, entries.len() as int),
        first_malformed(entries) is Some ==> is_first_unreadable(
            entries,
            entries.len() as int,
            ErrorModel::MalformedHeader(first_malformed(entries)->0),
        ),
    decreases entries.len(),
{
    if entries.len() > 0 {
        let front = entries.drop_last();
        let last = entries.len() - 1;
        lemma_first_malformed(front);
        assert(forall|i: int| 0 <= i < last ==> front[i] == #[trigger] entries[i]);
        if first_malformed(front) is Some {
            let e = ErrorModel::MalformedHeader(first_malformed(front)->0);
            let i = choose|i: int|
                0 <= i < last && (#[trigger] front[i]).hash is Err && e
                    == ErrorModel::MalformedHeader(front[i].hash->Err_0) && all_readable(
                    front,
                    i,
                );
            assert(entries[i] == front[i]);
            assert forall|j: int| 0 <= j < i implies (#[trigger] entries[j]).hash is Ok by {
                assert(front[j] == entries[j]);
            }
        } else {
            assert forall|j: int| 0 <= j < last implies (#[trigger] entries[j]).hash is Ok by {
                assert(front[j] == entries[j]);
            }
            assert(entries[last] == entries.last());
        }
    }
}

proof fn lemma_malformed_prefix(entries: Seq<EntryModel>, count: int)
    requires
        0 <= count <= entries.len(),
    ensures
        first_malformed(entries.take(count)) is None <==> all_readable(entries, count),
        first_malformed(entries.take(count)) is Some ==> is_first_unreadable(
            entries,
            count,
            ErrorModel::MalformedHeader(first_malformed(entries.take(count))->0),
        ),
{
    let front = entries.take(count);
    lemma_first_malformed(front);
    assert(forall|i: int| 0 <= i < count ==> front[i] == #[trigger] entries[i]);
    if first_malformed(front) is None {
        assert forall|j: int| 0 <= j < count implies (#[trigger] entries[j]).hash is Ok by {
            assert(front[j] == entries[j]);
        }
    } else {
        let e = ErrorModel::MalformedHeader(first_malformed(front)->0);
        let i = choose|i: int|
            0 <= i < count && (#[trigger] front[i]).hash is Err && e
                == ErrorModel::MalformedHeader(front[i].hash->Err_0) && all_readable(front, i);
        assert(entries[i] == front[i]);
        assert forall|j: int| 0 <= j < i implies (#[trigger] entries[j]).hash is Ok by {
            assert(front[j] == entries[j]);
        }
    }
}

/// A branch leaves the known blocks behind the last one that it can start after;
/// if there is none, it leaves them at the first.
pub proof fn law_fork_is_behind_the_parent(
    known: Seq<Option<[u8; 32]>>,
    parent: Seq<u8>,
)
    requires
        known.len() > 0,
    ensures
        forall|k: int| #[trigger] branches_at(known, parent, k) ==> fork_index(known, parent) == k,
        (forall|j: int| 0 <= j < known.len() - 1 ==> !has_hash(#[trigger] known[j], parent))
            ==> fork_index(known, parent) == 0,
{
    law_fork_index_exists(known, parent);
    let c = fork_index(known, parent);
    if c > 0 {
        assert(has_hash(known[c - 1], parent));
    }
    assert forall|k: int| #[trigger] branches_at(known, parent, k) implies c == k by {
        if k < c {
            assert(!has_hash(known[c - 1], parent));
        } else if c < k {
            assert(has_hash(known[k - 1], parent));
        }
    }
}

/// Headers that follow the newest known block are worked in at the end. The chain
/// keeps as many headers whole, and as many in all, as it can hold.
pub proof fn law_extension_result(
    chain: ChainModel,
    known: Seq<Option<[u8; 32]>>,
    parent: Seq<u8>,
    new_count: int,
    infos: Seq<EntryModel>,
    after: ChainModel,
)
    requires
        known.len() > 0,
        has_hash(known.last(), parent),
        chain.unconfirmed.len() > 0,
        0 <= new_count < CONFIRM,
        updated_chain(chain, known, parent, new_count, infos) == Ok::<ChainModel, ErrorModel>(
            after,
        ),
    ensures
        is_extension_result(after, chain, new_count, infos),
        infos.len() == new_count ==> after.unconfirmed.len() == smaller(
            CONFIRM as int,
            chain.unconfirmed.len() + new_count,
        ),
        infos.len() == new_count ==> after.confirmed.len() + after.unconfirmed.len() == smaller(
            MAIN_HEADER_CACHE_LIMIT as int,
            chain.confirmed.len() + chain.unconfirmed.len() + new_count,
        ),
{
    let whole = chain.unconfirmed.len() + new_count;
    let due = larger(0, whole - CONFIRM);
    let over = larger(0, chain.confirmed.len() + whole - MAIN_HEADER_CACHE_LIMIT);
    lemma_malformed_prefix(chain.unconfirmed, due);
    assert(after.unconfirmed =~= (chain.unconfirmed + infos).skip(due));
    assert(over <= chain.confirmed.len() + due);
    assert(is_hash_list(after.confirmed, chain.confirmed, chain.unconfirmed, due, over));
}

/// Headers that follow the newest known block are refused exactly if a header
/// that is due to be brought down to its hash has none, and then for what is
/// wrong with the first such header.
pub proof fn law_extension_refused(
    chain: ChainModel,
    known: Seq<Option<[u8; 32]>>,
    parent: Seq<u8>,
    new_count: int,
    infos: Seq<EntryModel>,
)
    requires
        known.len() > 0,
        has_hash(known.last(), parent),
        0 <= new_count,
    ensures
        ({
            let len = chain.unconfirmed.len() as int;
            let due = smaller(len, larger(0, len + new_count - CONFIRM));
            let r = updated_chain(chain, known, parent, new_count, infos);
            let tail = tail_header(chain, known, parent, new_count);
            &&& r is Ok <==> all_readable(chain.unconfirmed, due)
            &&& r is Err ==> is_first_unreadable(chain.unconfirmed, due, r->Err_0)
            &&& tail is Ok <==> all_readable(chain.unconfirmed, due)
            &&& tail is Err ==> is_first_unreadable(chain.unconfirmed, due, tail->Err_0)
            &&& tail is Ok ==> tail->Ok_0 == chain.unconfirmed[len - 1].raw
        }),
{
    let len = chain.unconfirmed.len() as int;
    let due = smaller(len, larger(0, len + new_count - CONFIRM));
    lemma_malformed_prefix(chain.unconfirmed, due);
}

/// Headers on a branch are worked in behind the block that they follow.
pub proof fn law_branch_result(
    chain: ChainModel,
    known: Seq<Option<[u8; 32]>>,
    parent: Seq<u8>,
    k: int,
    new_count: int,
    infos: Seq<EntryModel>,
    after: ChainModel,
)
    requires
        branches_at(known, parent, k),
        k <= chain.unconfirmed.len(),
        updated_chain(chain, known, parent, new_count, infos) == Ok::<ChainModel, ErrorModel>(
            after,
        ),
    ensures
        is_branch_result(after, chain, k, infos),
{
    law_fork_is_behind_the_parent(known, parent);
    assert(!has_hash(known[known.len() - 1], parent));
    let all = chain.unconfirmed.take(k) + infos;
    let whole = smaller(all.len() as int, larger(k, CONFIRM as int));
    let due = all.len() - whole;
    let hashes = chain.confirmed.len() + due;
    let kept = smaller(
        hashes,
        larger(chain.confirmed.len() as int, MAIN_HEADER_CACHE_LIMIT as int),
    );
    lemma_malformed_prefix(all, due);
    assert(with_branch(chain, k).unconfirmed + infos == all);
    assert(is_hash_list(after.confirmed, chain.confirmed, all, due, hashes - kept));
    assert(after.uncle == with_branch(chain, k).uncle);
}

/// Headers on a branch are refused exactly if a header that is due to be brought
/// down to its hash has none, and then for what is wrong with the first such
/// header. The header that they follow is always found.
pub proof fn law_branch_refused(
    chain: ChainModel,
    known: Seq<Option<[u8; 32]>>,
    parent: Seq<u8>,
    k: int,
    new_count: int,
    infos: Seq<EntryModel>,
)
    requires
        branches_at(known, parent, k),
        k <= chain.unconfirmed.len(),
    ensures
        ({
            let all = chain.unconfirmed.take(k) + infos;
            let due = all.len() - smaller(all.len() as int, larger(k, CONFIRM as int));
            let r = updated_chain(chain, known, parent, new_count, infos);
            &&& r is Ok <==> all_readable(all, due)
            &&& r is Err ==> is_first_unreadable(all, due, r->Err_0)
        }),
        tail_header(chain, known, parent, new_count) == Ok::<Seq<u8>, ErrorModel>(
            chain.unconfirmed[k - 1].raw,
        ),
{
    law_fork_is_behind_the_parent(known, parent);
    assert(!has_hash(known[known.len() - 1], parent));
    let all = chain.unconfirmed.take(k) + infos;
    let due = all.len() - smaller(all.len() as int, larger(k, CONFIRM as int));
    lemma_malformed_prefix(all, due);
    assert(with_branch(chain, k).unconfirmed + infos == all);
}

/// When headers can be worked in or refused. The newest known block has a hash.
/// Right after it, there is a whole header and fewer new ones than are kept
/// whole, or a header that is due is unreadable. On a branch, the block that it
/// starts after is kept whole, and that block and all later ones have a hash.
/// Headers that follow no known block cannot be worked in.
pub proof fn law_update_accepted(
    chain: ChainModel,
    known: Seq<Option<[u8; 32]>>,
    parent: Seq<u8>,
    new_count: int,
)
    requires
        0 <= new_count,
    ensures
        known.len() == 0 || known.last() is None ==> !update_accepted(
            chain,
            known,
            parent,
            new_count,
        ),
        known.len() > 0 && has_hash(known.last(), parent) ==> ({
            let len = chain.unconfirmed.len() as int;
            let due = smaller(len, larger(0, len + new_count - CONFIRM));
            update_accepted(chain, known, parent, new_count) <==> {
                ||| !all_readable(chain.unconfirmed, due)
                ||| len > 0 && new_count < CONFIRM
            }
        }),
        forall|k: int| #[trigger]
            branches_at(known, parent, k) ==> (update_accepted(chain, known, parent, new_count)
                <==> k <= chain.unconfirmed.len() && forall|j: int|
                k - 1 <= j < known.len() ==> (#[trigger] known[j]) is Some),
        (forall|j: int| 0 <= j < known.len() ==> !has_hash(#[trigger] known[j], parent))
            ==> !update_accepted(chain, known, parent, new_count),
{
    if known.len() > 0 {
        law_fork_is_behind_the_parent(known, parent);
        let last = known.len() - 1;
        if has_hash(known[last], parent) {
            let len = chain.unconfirmed.len() as int;
            let due = smaller(len, larger(0, len + new_count - CONFIRM));
            lemma_malformed_prefix(chain.unconfirmed, due);
            assert forall|k: int| #[trigger] branches_at(known, parent, k) implies false by {
                assert(!has_hash(known[last], parent));
            }
        }
    }
}

/// The model of a chain leaves nothing out: every hash, every whole header with
/// its hash or the reason why it has none, and every passed-over header.
pub proof fn law_chain_model_is_complete(chain: HeaderChain)
    ensures
        chain@.confirmed.len() == chain.confirmed@.len(),
        forall|i: int|
            0 <= i < chain.confirmed@.len() ==> #[trigger] chain@.confirmed[i]
                == chain.confirmed@[i]@,
        chain@.unconfirmed.len() == chain.unconfirmed@.len(),
        forall|i: int|
            0 <= i < chain.unconfirmed@.len() ==> {
                let entry = chain.unconfirmed@[i];
                &&& (#[trigger] chain@.unconfirmed[i]).raw == entry.raw@
                &&& match entry.hash {
                    Ok(h) => chain@.unconfirmed[i].hash == Ok::<Seq<u8>, Seq<char>>(h@),
                    Err(e) => chain@.unconfirmed[i].hash == Err::<Seq<u8>, Seq<char>>(e@),
                }
            },
        chain@.uncle.len() == chain.uncle@.len(),
        forall|i: int|
            0 <= i < chain.uncle@.len() ==> #[trigger] chain@.uncle[i] == chain.uncle@[i]@,
{
}

/// The stored main chain is the hashes, oldest first, and then the whole headers
/// as they are stored.
pub proof fn law_main_chain_items(chain: ChainModel)
    ensures
        main_chain(chain).len() == chain.confirmed.len() + chain.unconfirmed.len(),
        forall|i: int|
            0 <= i < chain.confirmed.len() ==> #[trigger] main_chain(chain)[i]
                == chain.confirmed[i],
        forall|i: int|
            0 <= i < chain.unconfirmed.len() ==> main_chain(chain)[chain.confirmed.len() + i]
                == (#[trigger] chain.unconfirmed[i]).raw,
{
}

} // verus!
