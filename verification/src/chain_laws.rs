//! What holds of the light client's chain, whatever is worked into it.
use crate::chain::{
    driven_out, extension_demoted, first_malformed, fork_index, hashes, is_block, is_fork_index,
    main_chain, raws, tail_header, update_accepted, updated_chain, ChainModel, EntryModel,
    CONFIRM, MAIN_HEADER_CACHE_LIMIT, UNCLE_HEADER_CACHE_LIMIT,
};
use crate::error::ErrorModel;
use vstd::prelude::*;

verus! {

/// The hashes of the main chain, oldest first.
pub open spec fn hash_chain(chain: ChainModel) -> Seq<Seq<u8>> {
    chain.confirmed + hashes(chain.unconfirmed)
}

/// A branch always leaves the known blocks somewhere.
pub proof fn law_fork_index_exists(known: Seq<Option<[u8; 32]>>, parent: Seq<u8>)
    requires
        known.len() > 0,
    ensures
        is_fork_index(known, parent, fork_index(known, parent)),
{
    let k = search_fork(known, parent, known.len() - 1);
    assert(is_fork_index(known, parent, k));
}

proof fn search_fork(known: Seq<Option<[u8; 32]>>, parent: Seq<u8>, from: int) -> (k: int)
    requires
        0 <= from < known.len(),
        forall|j: int| from <= j < known.len() - 1 ==> !is_block(#[trigger] known[j], parent),
    ensures
        is_fork_index(known, parent, k),
    decreases from,
{
    if from == 0 || is_block(known[from - 1], parent) {
        from
    } else {
        search_fork(known, parent, from - 1)
    }
}

/// Headers that follow the newest known block are added at the end of the
/// chain. Nothing else changes in the order of the hashes but that the oldest
/// ones are gone, as many as there are too many; no passed-over header is
/// touched.
pub proof fn law_extension_keeps_order(
    chain: ChainModel,
    known: Seq<Option<[u8; 32]>>,
    parent: Seq<u8>,
    new_count: int,
    infos: Seq<EntryModel>,
    after: ChainModel,
)
    requires
        new_count >= 0,
        update_accepted(chain, known, parent, new_count),
        is_block(known.last(), parent),
        updated_chain(chain, known, parent, new_count, infos) == Ok::<ChainModel, ErrorModel>(
            after,
        ),
    ensures
        ({
            let over = chain.confirmed.len() + chain.unconfirmed.len() + new_count
                - MAIN_HEADER_CACHE_LIMIT;
            hash_chain(after) == (hash_chain(chain) + hashes(infos)).skip(
                if over > 0 {
                    over
                } else {
                    0
                },
            )
        }),
        after.uncle == chain.uncle,
{
    let d = extension_demoted(chain.unconfirmed.len() as int, new_count);
    let over = chain.confirmed.len() + chain.unconfirmed.len() + new_count
        - MAIN_HEADER_CACHE_LIMIT;
    let s = if over > 0 {
        over
    } else {
        0
    };
    assert(0 <= d < chain.unconfirmed.len());
    assert(s <= chain.confirmed.len() + d);
    assert(after.unconfirmed == chain.unconfirmed.skip(d) + infos);
    assert(hashes(after.unconfirmed) =~= hashes(chain.unconfirmed).skip(d) + hashes(infos));
    assert(hashes(chain.unconfirmed.take(d)) =~= hashes(chain.unconfirmed).take(d));
    assert(hash_chain(after) =~= (hash_chain(chain) + hashes(infos)).skip(s));
}

/// Headers that follow the newest known block leave the main chain and its
/// whole headers within their limits, however long the chain was before.
pub proof fn law_extension_within_limits(
    chain: ChainModel,
    known: Seq<Option<[u8; 32]>>,
    parent: Seq<u8>,
    infos: Seq<EntryModel>,
    after: ChainModel,
)
    requires
        update_accepted(chain, known, parent, infos.len() as int),
        is_block(known.last(), parent),
        updated_chain(chain, known, parent, infos.len() as int, infos) == Ok::<
            ChainModel,
            ErrorModel,
        >(after),
    ensures
        after.unconfirmed.len() <= CONFIRM,
        main_chain(after).len() <= MAIN_HEADER_CACHE_LIMIT,
{
}

/// A branch leaves the chain as it was up to the block that it starts after,
/// and its headers follow that block. Nothing else changes in the order of the
/// hashes but that the oldest ones are gone, as many as are driven out.
pub proof fn law_branch_keeps_order(
    chain: ChainModel,
    known: Seq<Option<[u8; 32]>>,
    parent: Seq<u8>,
    new_count: int,
    infos: Seq<EntryModel>,
    after: ChainModel,
)
    requires
        update_accepted(chain, known, parent, new_count),
        !is_block(known.last(), parent),
        updated_chain(chain, known, parent, new_count, infos) == Ok::<ChainModel, ErrorModel>(
            after,
        ),
    ensures
        ({
            let k = fork_index(known, parent);
            let demoted = driven_out(k, infos.len() as int, CONFIRM as int);
            let gone = driven_out(
                chain.confirmed.len() as int,
                demoted,
                MAIN_HEADER_CACHE_LIMIT as int,
            );
            &&& is_block(known[k - 1], parent)
            &&& hash_chain(after) == (hash_chain(chain).take(chain.confirmed.len() + k)
                + hashes(infos)).skip(gone)
        }),
{
    law_fork_index_exists(known, parent);
    let k = fork_index(known, parent);
    let all = chain.unconfirmed.take(k) + infos;
    let d = driven_out(k, infos.len() as int, CONFIRM as int);
    let f = driven_out(chain.confirmed.len() as int, d, MAIN_HEADER_CACHE_LIMIT as int);
    assert(0 <= d <= all.len());
    assert(0 <= f <= chain.confirmed.len() + d);
    assert(hashes(all.take(d)) + hashes(all.skip(d)) =~= hashes(all));
    let whole = chain.confirmed + hashes(all.take(d));
    assert(whole.skip(f) + hashes(all.skip(d)) =~= (whole + hashes(all.skip(d))).skip(f));
    assert(whole + hashes(all.skip(d)) =~= hash_chain(chain).take(chain.confirmed.len() + k)
        + hashes(infos));
}

/// On a branch too, fewer headers than are kept whole stand right behind the
/// stored header that they were said to follow.
pub proof fn law_branch_follows_tail(
    chain: ChainModel,
    known: Seq<Option<[u8; 32]>>,
    parent: Seq<u8>,
    new_count: int,
    infos: Seq<EntryModel>,
    after: ChainModel,
)
    requires
        update_accepted(chain, known, parent, new_count),
        !is_block(known.last(), parent),
        infos.len() < CONFIRM,
        updated_chain(chain, known, parent, new_count, infos) == Ok::<ChainModel, ErrorModel>(
            after,
        ),
    ensures
        main_chain(after).len() > infos.len(),
        tail_header(chain, known, parent, new_count) == Ok::<Seq<u8>, ErrorModel>(
            main_chain(after)[main_chain(after).len() - infos.len() - 1],
        ),
{
    law_fork_index_exists(known, parent);
    let k = fork_index(known, parent);
    let d = driven_out(k, infos.len() as int, CONFIRM as int);
    assert(0 <= d < k);
    let last = after.unconfirmed.len() - infos.len() - 1;
    assert(after.unconfirmed[last] == chain.unconfirmed[k - 1]);
}

/// Every header that a branch passes over is among the passed-over headers, in
/// its order and behind those that were there before. Only the oldest ones are
/// gone, as many as there are too many.
pub proof fn law_branch_records_what_it_passes_over(
    chain: ChainModel,
    known: Seq<Option<[u8; 32]>>,
    parent: Seq<u8>,
    new_count: int,
    infos: Seq<EntryModel>,
    after: ChainModel,
)
    requires
        update_accepted(chain, known, parent, new_count),
        !is_block(known.last(), parent),
        updated_chain(chain, known, parent, new_count, infos) == Ok::<ChainModel, ErrorModel>(
            after,
        ),
    ensures
        ({
            let passed_over = raws(chain.unconfirmed.skip(fork_index(known, parent)));
            let all = chain.uncle + passed_over;
            let over = all.len() - UNCLE_HEADER_CACHE_LIMIT;
            &&& chain.uncle.len() <= UNCLE_HEADER_CACHE_LIMIT ==> after.uncle == all.skip(
                if over > 0 {
                    over
                } else {
                    0
                },
            )
            &&& passed_over.len() <= UNCLE_HEADER_CACHE_LIMIT ==> passed_over.is_suffix_of(
                after.uncle,
            )
        }),
{
    law_fork_index_exists(known, parent);
    let passed_over = raws(chain.unconfirmed.skip(fork_index(known, parent)));
    let all = chain.uncle + passed_over;
    assert(all.skip(0) =~= all);
    if passed_over.len() <= UNCLE_HEADER_CACHE_LIMIT {
        let n = after.uncle.len() as int;
        assert(after.uncle.subrange(n - passed_over.len(), n) =~= passed_over);
    }
}

/// What a branch leaves of a chain within its limits: the headers up to the
/// block that it starts after and then its own, as many of the newest as are
/// kept whole, and the others down to their hashes behind the older ones.
pub proof fn law_branch_replaces_the_end(
    chain: ChainModel,
    known: Seq<Option<[u8; 32]>>,
    parent: Seq<u8>,
    new_count: int,
    infos: Seq<EntryModel>,
    after: ChainModel,
)
    requires
        update_accepted(chain, known, parent, new_count),
        !is_block(known.last(), parent),
        chain.unconfirmed.len() <= CONFIRM,
        chain.confirmed.len() + chain.unconfirmed.len() + infos.len() <= MAIN_HEADER_CACHE_LIMIT,
        updated_chain(chain, known, parent, new_count, infos) == Ok::<ChainModel, ErrorModel>(
            after,
        ),
    ensures
        ({
            let all = chain.unconfirmed.take(fork_index(known, parent)) + infos;
            let demoted = if all.len() > CONFIRM {
                all.len() - CONFIRM
            } else {
                0
            };
            main_chain(after) == chain.confirmed + hashes(all.take(demoted)) + raws(
                all.skip(demoted),
            )
        }),
{
    law_fork_index_exists(known, parent);
    let all = chain.unconfirmed.take(fork_index(known, parent)) + infos;
    let demoted = if all.len() > CONFIRM {
        all.len() - CONFIRM
    } else {
        0
    };
    let confirmed = chain.confirmed + hashes(all.take(demoted));
    assert(confirmed.skip(0) =~= confirmed);
}

/// A branch leaves the lists of hashes and of passed-over headers within their
/// limits if they were, and does not lengthen the list of whole headers beyond
/// its limit.
pub proof fn law_branch_within_limits(
    chain: ChainModel,
    known: Seq<Option<[u8; 32]>>,
    parent: Seq<u8>,
    new_count: int,
    infos: Seq<EntryModel>,
    after: ChainModel,
)
    requires
        update_accepted(chain, known, parent, new_count),
        !is_block(known.last(), parent),
        updated_chain(chain, known, parent, new_count, infos) == Ok::<ChainModel, ErrorModel>(
            after,
        ),
    ensures
        chain.confirmed.len() <= MAIN_HEADER_CACHE_LIMIT ==> after.confirmed.len()
            <= MAIN_HEADER_CACHE_LIMIT,
        chain.uncle.len() <= UNCLE_HEADER_CACHE_LIMIT ==> after.uncle.len()
            <= UNCLE_HEADER_CACHE_LIMIT,
        after.unconfirmed.len() <= CONFIRM || after.unconfirmed.len()
            <= chain.unconfirmed.len(),
{
    law_fork_index_exists(known, parent);
}

/// Up to as many new headers as are kept whole end up at the end of the main
/// chain, in their order.
pub proof fn law_new_headers_come_last(
    chain: ChainModel,
    known: Seq<Option<[u8; 32]>>,
    parent: Seq<u8>,
    new_count: int,
    infos: Seq<EntryModel>,
    after: ChainModel,
)
    requires
        new_count >= 0,
        update_accepted(chain, known, parent, new_count),
        infos.len() <= CONFIRM,
        updated_chain(chain, known, parent, new_count, infos) == Ok::<ChainModel, ErrorModel>(
            after,
        ),
    ensures
        raws(infos).is_suffix_of(main_chain(after)),
{
    law_fork_index_exists(known, parent);
    let main = main_chain(after);
    let n = infos.len();
    assert(after.unconfirmed.len() >= n);
    let at = after.unconfirmed.len() - n;
    assert(after.unconfirmed.skip(at) =~= infos);
    assert forall|i: int| 0 <= i < n implies main[main.len() - n + i] == raws(infos)[i] by {
        assert(after.unconfirmed.skip(at)[i] == infos[i]);
    }
    assert(raws(infos) =~= main.subrange(main.len() - n, main.len() as int));
}

/// Headers that follow the newest known block stand right behind the stored
/// header that they were said to follow.
pub proof fn law_extension_follows_tail(
    chain: ChainModel,
    known: Seq<Option<[u8; 32]>>,
    parent: Seq<u8>,
    new_count: int,
    infos: Seq<EntryModel>,
    after: ChainModel,
)
    requires
        new_count >= 0,
        update_accepted(chain, known, parent, new_count),
        is_block(known.last(), parent),
        updated_chain(chain, known, parent, new_count, infos) == Ok::<ChainModel, ErrorModel>(
            after,
        ),
    ensures
        main_chain(after).len() > infos.len(),
        tail_header(chain, known, parent, new_count) == Ok::<Seq<u8>, ErrorModel>(
            main_chain(after)[main_chain(after).len() - infos.len() - 1],
        ),
{
    let d = extension_demoted(chain.unconfirmed.len() as int, new_count);
    assert(0 <= d < chain.unconfirmed.len());
    assert(after.unconfirmed == chain.unconfirmed.skip(d) + infos);
    let last = after.unconfirmed.len() - infos.len() - 1;
    assert(after.unconfirmed[last] == chain.unconfirmed.last());
}

/// What keeps the header that new ones follow from being found keeps the chain
/// from being updated, for the same reason.
pub proof fn law_no_update_without_tail(
    chain: ChainModel,
    known: Seq<Option<[u8; 32]>>,
    parent: Seq<u8>,
    new_count: int,
    infos: Seq<EntryModel>,
    e: ErrorModel,
)
    requires
        tail_header(chain, known, parent, new_count) == Err::<Seq<u8>, ErrorModel>(e),
    ensures
        updated_chain(chain, known, parent, new_count, infos) == Err::<ChainModel, ErrorModel>(
            e,
        ),
{
}

/// A header that is stored without a readable hash is reported only when it is
/// due to be brought down to its hash: a chain without such a header is always
/// updated.
pub proof fn law_sound_chain_is_updated(
    chain: ChainModel,
    known: Seq<Option<[u8; 32]>>,
    parent: Seq<u8>,
    new_count: int,
    infos: Seq<EntryModel>,
)
    requires
        new_count >= 0,
        update_accepted(chain, known, parent, new_count),
        forall|i: int|
            0 <= i < chain.unconfirmed.len() ==> (#[trigger] chain.unconfirmed[i]).hash is Ok,
        forall|i: int| 0 <= i < infos.len() ==> (#[trigger] infos[i]).hash is Ok,
    ensures
        updated_chain(chain, known, parent, new_count, infos) is Ok,
        tail_header(chain, known, parent, new_count) is Ok,
{
    let len = chain.unconfirmed.len() as int;
    let d = extension_demoted(len, new_count);
    if is_block(known.last(), parent) {
        lemma_sound(chain.unconfirmed.take(d));
    } else {
        law_fork_index_exists(known, parent);
        let k = fork_index(known, parent);
        let all = chain.unconfirmed.take(k) + infos;
        assert forall|i: int| 0 <= i < all.len() implies (#[trigger] all[i]).hash is Ok by {
            if i < k {
                assert(all[i] == chain.unconfirmed[i]);
            } else {
                assert(all[i] == infos[i - k]);
            }
        }
        let out = driven_out(k, infos.len() as int, CONFIRM as int);
        lemma_sound(all.take(out));
    }
}

proof fn lemma_sound(entries: Seq<EntryModel>)
    requires
        forall|i: int| 0 <= i < entries.len() ==> (#[trigger] entries[i]).hash is Ok,
    ensures
        first_malformed(entries) is None,
    decreases entries.len(),
{
    if entries.len() > 0 {
        lemma_sound(entries.drop_last());
    }
}

} // verus!
