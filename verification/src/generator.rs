//! The generator, and what it does besides planning transactions.
use crate::ckb::header_vec_bytes;
use crate::error::{Error, ErrorModel};
use crate::hexadecimal::{hex_encode, hex_encoded};
use crate::molecule::header_vec_encoding;
use crate::types::{CellOutput, DeployedContracts, Lookup};
use vstd::prelude::*;

verus! {

/// The generator. `G` is what was read out of the chain's genesis block; it is
/// kept for whoever funds the transactions.
#[derive(Debug)]
pub struct Generator<G> {
    pub genesis_info: G,
    pub deployed_contracts: DeployedContracts,
}

/// What came of signing and sending a transaction.
#[derive(Debug)]
pub enum SendOutcome {
    /// It could not be signed.
    NotSigned(String),
    /// It was signed, but not sent.
    NotSent(String),
    /// It was sent, with this hash.
    Sent([u8; 32]),
}

/// A header that was looked up, as bytes, or why there is none.
pub open spec fn found_header(lookup: Lookup<[u8; 208]>) -> Result<Seq<u8>, ErrorModel> {
    match lookup {
        Lookup::Failed(e) => Err(ErrorModel::HeaderFetch(e@)),
        Lookup::Missing => Err(ErrorModel::HeaderMissing),
        Lookup::Found(header) => Ok(header@),
    }
}

/// Headers that were looked up, in their order, or why the first one that is
/// not there is not there.
pub open spec fn found_headers(lookups: Seq<Lookup<[u8; 208]>>) -> Result<
    Seq<Seq<u8>>,
    ErrorModel,
>
    decreases lookups.len(),
{
    if lookups.len() == 0 {
        Ok(Seq::empty())
    } else {
        match found_headers(lookups.drop_last()) {
            Err(e) => Err(e),
            Ok(front) => match found_header(lookups.last()) {
                Err(e) => Err(e),
                Ok(header) => Ok(front.push(header)),
            },
        }
    }
}

proof fn lemma_found_headers_fails(lookups: Seq<Lookup<[u8; 208]>>, i: int, e: ErrorModel)
    requires
        0 <= i <= lookups.len(),
        found_headers(lookups.take(i)) == Err::<Seq<Seq<u8>>, ErrorModel>(e),
    ensures
        found_headers(lookups) == Err::<Seq<Seq<u8>>, ErrorModel>(e),
    decreases lookups.len() - i,
{
    if i < lookups.len() {
        assert(lookups.take(i + 1).drop_last() =~= lookups.take(i));
        lemma_found_headers_fails(lookups, i + 1, e);
    } else {
        assert(lookups.take(i) =~= lookups);
    }
}

pub open spec fn header_models(v: Seq<[u8; 208]>) -> Seq<Seq<u8>> {
    v.map_values(|h: [u8; 208]| h@)
}

impl<G> Generator<G> {
    /// Makes a generator, once the genesis block was looked up and read.
    pub fn new(genesis: Lookup<Result<G, String>>, settings: DeployedContracts) -> (r: Result<
        Self,
        Error,
    >)
        ensures
            match genesis {
                Lookup::Failed(e) => r is Err && r->Err_0@ == ErrorModel::Rpc(e@),
                Lookup::Missing => r is Err && r->Err_0@ == ErrorModel::GenesisBlockMissing,
                Lookup::Found(Err(e)) => r is Err && r->Err_0@ == ErrorModel::GenesisInfo(e@),
                Lookup::Found(Ok(info)) => r is Ok && r->Ok_0.genesis_info == info
                    && r->Ok_0.deployed_contracts == settings,
            },
    {
        match genesis {
            Lookup::Failed(e) => Err(Error::Rpc(e)),
            Lookup::Missing => Err(Error::GenesisBlockMissing),
            Lookup::Found(Err(e)) => Err(Error::GenesisInfo(e)),
            Lookup::Found(Ok(genesis_info)) => Ok(
                Generator { genesis_info, deployed_contracts: settings },
            ),
        }
    }

    /// The cell that was looked up: the output and its data.
    pub fn get_ckb_cell(&self, cell: Lookup<(CellOutput, Vec<u8>)>) -> (r: Result<
        (CellOutput, Vec<u8>),
        Error,
    >)
        ensures
            match cell {
                Lookup::Failed(e) => r is Err && r->Err_0@ == ErrorModel::Rpc(e@),
                Lookup::Missing => r is Err && r->Err_0@ == ErrorModel::CellNotFound,
                Lookup::Found(found) => r == Ok::<(CellOutput, Vec<u8>), Error>(found),
            },
    {
        match cell {
            Lookup::Failed(e) => Err(Error::Rpc(e)),
            Lookup::Missing => Err(Error::CellNotFound),
            Lookup::Found(found) => Ok(found),
        }
    }

    /// The headers that were looked up, as one byte string.
    pub fn get_ckb_headers(&self, lookups: Vec<Lookup<[u8; 208]>>) -> (r: Result<
        Vec<u8>,
        Error,
    >)
        requires
            lookups.len() <= u32::MAX,
        ensures
            match found_headers(lookups@) {
                Ok(headers) => r is Ok && r->Ok_0@ == header_vec_encoding(headers),
                Err(e) => r is Err && r->Err_0@ == e,
            },
    {
        let ghost all = lookups@;
        let mut rest = lookups;
        let mut headers: Vec<[u8; 208]> = Vec::new();
        assert(all.take(0) =~= Seq::empty());
        assert(all.skip(0) =~= all);
        assert(header_models(headers@) =~= Seq::empty());
        while rest.len() > 0
            invariant
                all == lookups@,
                all.len() <= u32::MAX,
                headers.len() <= all.len(),
                rest@ == all.skip(headers.len() as int),
                found_headers(all.take(headers.len() as int)) == Ok::<
                    Seq<Seq<u8>>,
                    ErrorModel,
                >(header_models(headers@)),
            decreases rest.len(),
        {
            let ghost i = headers.len() as int;
            let next = rest.remove(0);
            assert(next == all[i]);
            assert(rest@ =~= all.skip(i + 1));
            assert(all.take(i + 1).drop_last() =~= all.take(i));
            match next {
                Lookup::Failed(e) => {
                    proof {
                        lemma_found_headers_fails(all, i + 1, ErrorModel::HeaderFetch(e@));
                    }
                    return Err(Error::HeaderFetch(e));
                },
                Lookup::Missing => {
                    proof {
                        lemma_found_headers_fails(all, i + 1, ErrorModel::HeaderMissing);
                    }
                    return Err(Error::HeaderMissing);
                },
                Lookup::Found(header) => {
                    let ghost before = header_models(headers@);
                    headers.push(header);
                    assert(header_models(headers@) =~= before.push(header@));
                },
            }
        }
        assert(all.take(headers.len() as int) =~= all);
        Ok(header_vec_bytes(&headers))
    }

    /// The text by which a transaction is known: its hash in hexadecimal.
    pub fn transaction_id(&self, tx_hash: &[u8; 32]) -> (r: String)
        ensures
            r@ == hex_encoded(tx_hash@),
    {
        hex_encode(tx_hash.as_slice())
    }

    /// The text by which a transaction is known, once it was signed and sent.
    pub fn sign_and_send_transaction(&self, outcome: SendOutcome) -> (r: Result<String, Error>)
        ensures
            match outcome {
                SendOutcome::NotSigned(e) => r is Err && r->Err_0@ == ErrorModel::Signing(e@),
                SendOutcome::NotSent(e) => r is Err && r->Err_0@ == ErrorModel::Rpc(e@),
                SendOutcome::Sent(tx_hash) => r is Ok && r->Ok_0@ == hex_encoded(tx_hash@),
            },
    {
        match outcome {
            SendOutcome::NotSigned(e) => Err(Error::Signing(e)),
            SendOutcome::NotSent(e) => Err(Error::Rpc(e)),
            SendOutcome::Sent(tx_hash) => Ok(self.transaction_id(&tx_hash)),
        }
    }
}

/// A header that was found is delivered as it is. If one was not found, the first
/// such header says why: what the node said, or that there is none.
pub proof fn law_headers_are_what_was_found(lookups: Seq<Lookup<[u8; 208]>>)
    ensures
        found_headers(lookups) is Ok <==> (forall|i: int|
            0 <= i < lookups.len() ==> (#[trigger] lookups[i]) is Found),
        found_headers(lookups) is Ok ==> found_headers(lookups)->Ok_0.len() == lookups.len(),
        found_headers(lookups) is Ok ==> forall|i: int|
            0 <= i < lookups.len() ==> #[trigger] found_headers(lookups)->Ok_0[i]
                == lookups[i]->Found_0@,
        found_headers(lookups) is Err ==> exists|i: int|
            {
                &&& 0 <= i < lookups.len()
                &&& forall|j: int| 0 <= j < i ==> (#[trigger] lookups[j]) is Found
                &&& match #[trigger] lookups[i] {
                    Lookup::Failed(e) => found_headers(lookups)->Err_0
                        == ErrorModel::HeaderFetch(e@),
                    Lookup::Missing => found_headers(lookups)->Err_0
                        == ErrorModel::HeaderMissing,
                    Lookup::Found(_) => false,
                }
            },
    decreases lookups.len(),
{
    if lookups.len() > 0 {
        let front = lookups.drop_last();
        let last = lookups.len() - 1;
        law_headers_are_what_was_found(front);
        assert(forall|i: int| 0 <= i < last ==> front[i] == #[trigger] lookups[i]);
        if found_headers(front) is Err {
            let e = found_headers(front)->Err_0;
            let i = choose|i: int|
                {
                    &&& 0 <= i < front.len()
                    &&& forall|j: int| 0 <= j < i ==> (#[trigger] front[j]) is Found
                    &&& match #[trigger] front[i] {
                        Lookup::Failed(s) => e == ErrorModel::HeaderFetch(s@),
                        Lookup::Missing => e == ErrorModel::HeaderMissing,
                        Lookup::Found(_) => false,
                    }
                };
            assert(lookups[i] == front[i]);
            assert forall|j: int| 0 <= j < i implies (#[trigger] lookups[j]) is Found by {
                assert(front[j] == lookups[j]);
            }
        } else {
            assert forall|j: int| 0 <= j < last implies (#[trigger] lookups[j]) is Found by {
                assert(front[j] == lookups[j]);
            }
            assert(lookups[last] == lookups.last());
            if found_headers(lookups) is Ok {
                let all = found_headers(lookups)->Ok_0;
                let before = found_headers(front)->Ok_0;
                assert forall|i: int| 0 <= i < lookups.len() implies #[trigger] all[i]
                    == lookups[i]->Found_0@ by {
                    if i < last {
                        assert(all[i] == before[i]);
                        assert(front[i] == lookups[i]);
                    }
                }
            }
        }
    }
}

/// Headers are delivered exactly if each of them was found, each at its own
/// place.
pub proof fn law_headers_found_each(lookups: Seq<Lookup<[u8; 208]>>)
    ensures
        found_headers(lookups) is Ok <==> (forall|i: int|
            0 <= i < lookups.len() ==> found_header(#[trigger] lookups[i]) is Ok),
        found_headers(lookups) is Ok ==> found_headers(lookups)->Ok_0.len() == lookups.len(),
        found_headers(lookups) is Ok ==> forall|i: int|
            0 <= i < lookups.len() ==> Ok::<Seq<u8>, ErrorModel>(
                #[trigger] found_headers(lookups)->Ok_0[i],
            ) == found_header(lookups[i]),
    decreases lookups.len(),
{
    if lookups.len() > 0 {
        let front = lookups.drop_last();
        law_headers_found_each(front);
        if found_headers(lookups) is Ok {
            let headers = found_headers(lookups)->Ok_0;
            let before = found_headers(front)->Ok_0;
            assert forall|i: int| 0 <= i < lookups.len() implies Ok::<Seq<u8>, ErrorModel>(
                #[trigger] headers[i],
            ) == found_header(lookups[i]) by {
                if i < front.len() {
                    assert(headers[i] == before[i]);
                    assert(front[i] == lookups[i]);
                }
            }
            assert forall|i: int| 0 <= i < lookups.len() implies found_header(
                #[trigger] lookups[i],
            ) is Ok by {
                assert(Ok::<Seq<u8>, ErrorModel>(headers[i]) == found_header(lookups[i]));
            }
        } else if forall|i: int|
            0 <= i < lookups.len() ==> found_header(#[trigger] lookups[i]) is Ok {
            assert forall|i: int| 0 <= i < front.len() implies found_header(
                #[trigger] front[i],
            ) is Ok by {
                assert(front[i] == lookups[i]);
            }
            assert(found_header(lookups.last()) is Ok);
        }
    }
}

} // verus!
