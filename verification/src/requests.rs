//! Protocol requests that a block carries, and the digest that commits to them.

use crate::digest::block_bytes;
use crate::digest::concat_blocks;
use crate::digest::digests_of;
use crate::digest::list_digest;
use crate::digest::sha256;
use crate::digest::sha256_digest;
use crate::digest::word_bytes;
use alloy_primitives::FixedBytes;
use alloy_primitives::B256;
use vstd::prelude::*;

verus! {

/// An ordered list of requests. Each request is a byte string: its type byte followed by
/// its data.
#[derive(Clone, Debug, PartialEq, Eq, Hash)]
pub struct Requests(Vec<Vec<u8>>);

impl DeepView for Requests {
    type V = Seq<Seq<u8>>;

    /// The requests as a sequence of byte strings.
    closed spec fn deep_view(&self) -> Seq<Seq<u8>> {
        self.0.deep_view()
    }
}

impl Requests {
    /// Wraps a list of requests.
    pub fn new(requests: Vec<Vec<u8>>) -> (wrapped: Self)
        ensures
            wrapped.deep_view() == requests.deep_view(),
    {
        Self(requests)
    }

    /// The requests held.
    pub fn get(&self) -> (requests: &Vec<Vec<u8>>)
        ensures
            requests.deep_view() == self.deep_view(),
    {
        &self.0
    }

    /// Gives up the wrapper for the requests held.
    pub fn take(self) -> (requests: Vec<Vec<u8>>)
        ensures
            requests.deep_view() == self.deep_view(),
    {
        self.0
    }

    /// The digest that commits to the requests: every request is hashed on its own, and the
    /// digests, laid end to end in list order, are hashed once more.
    pub fn requests_hash(&self) -> (hash: B256)
        ensures
            word_bytes(hash) == list_digest(self.deep_view()),
    {
        let ghost requests = self.deep_view();
        let mut blocks: Vec<[u8; 32]> = Vec::new();
        let mut i: usize = 0;
        while i < self.0.len()
            invariant
                i <= self.0.len(),
                requests == self.0.deep_view(),
                block_bytes(blocks@) =~= digests_of(requests.take(i as int)),
            decreases self.0.len() - i,
        {
            let block = sha256(self.0[i].as_slice());
            let ghost hashed = blocks@;
            blocks.push(block);
            proof {
                let request = self.0@[i as int]@;
                assert(requests[i as int] =~= request);
                assert(requests.take(i + 1) =~= requests.take(i as int).push(request));
                assert(block_bytes(blocks@) =~= block_bytes(hashed).push(block@));
                assert(digests_of(requests.take(i + 1)) =~= digests_of(
                    requests.take(i as int),
                ).push(sha256_digest(request)));
            }
            i += 1;
        }
        assert(requests.take(self.0@.len() as int) =~= requests);
        let preimage = concat_blocks(&blocks);
        FixedBytes(sha256(preimage.as_slice()))
    }
}

/// Either the requests themselves, or only the digest that commits to them.
#[derive(Clone, Debug, PartialEq, Eq, Hash)]
pub enum RequestsOrHash {
    /// The full list of requests.
    Requests(Requests),
    /// A digest computed elsewhere, standing in for the list.
    Hash(B256),
}

/// What a [`RequestsOrHash`] holds, as mathematical values.
pub enum RequestsModel {
    /// The full list of requests.
    Requests(Seq<Seq<u8>>),
    /// A digest standing in for the list.
    Hash(B256),
}

impl RequestsModel {
    /// The list of requests, where it is held.
    pub open spec fn requests(self) -> Option<Seq<Seq<u8>>> {
        match self {
            RequestsModel::Requests(requests) => Some(requests),
            RequestsModel::Hash(_) => None,
        }
    }

    /// The bytes of the requests digest: the stored digest, or else the digest of the list.
    pub open spec fn requests_hash(self) -> Seq<u8> {
        match self {
            RequestsModel::Requests(requests) => list_digest(requests),
            RequestsModel::Hash(hash) => word_bytes(hash),
        }
    }
}

impl DeepView for RequestsOrHash {
    type V = RequestsModel;

    open spec fn deep_view(&self) -> RequestsModel {
        match self {
            RequestsOrHash::Requests(requests) => RequestsModel::Requests(requests.deep_view()),
            RequestsOrHash::Hash(hash) => RequestsModel::Hash(*hash),
        }
    }
}

impl RequestsOrHash {
    /// The requests, if the list itself is held. A stored digest gives `None`.
    pub fn requests(&self) -> (requests: Option<&Requests>)
        ensures
            requests.deep_view() == self.deep_view().requests(),
    {
        match self {
            RequestsOrHash::Requests(requests) => Some(requests),
            RequestsOrHash::Hash(_) => None,
        }
    }

    /// The requests digest. A stored digest is returned as it is; a list is hashed.
    pub fn requests_hash(&self) -> (hash: B256)
        ensures
            word_bytes(hash) == self.deep_view().requests_hash(),
            self matches RequestsOrHash::Hash(stored) ==> hash == stored,
    {
        match self {
            RequestsOrHash::Requests(requests) => requests.requests_hash(),
            RequestsOrHash::Hash(stored) => *stored,
        }
    }
}

impl From<Requests> for RequestsOrHash {
    fn from(requests: Requests) -> (either: Self) {
        RequestsOrHash::Requests(requests)
    }
}

impl vstd::std_specs::convert::FromSpecImpl<Requests> for RequestsOrHash {
    open spec fn obeys_from_spec() -> bool {
        true
    }

    open spec fn from_spec(requests: Requests) -> Self {
        RequestsOrHash::Requests(requests)
    }
}

impl From<B256> for RequestsOrHash {
    fn from(hash: B256) -> (either: Self) {
        RequestsOrHash::Hash(hash)
    }
}

impl vstd::std_specs::convert::FromSpecImpl<B256> for RequestsOrHash {
    open spec fn obeys_from_spec() -> bool {
        true
    }

    open spec fn from_spec(hash: B256) -> Self {
        RequestsOrHash::Hash(hash)
    }
}

/// The requests digest of a list is computed from the list, and a stored digest is its own
/// requests digest. Only a list can be read back.
pub proof fn lemma_requests_hash_by_variant(requests: Seq<Seq<u8>>, stored: B256)
    ensures
        RequestsModel::Requests(requests).requests_hash() == list_digest(requests),
        RequestsModel::Requests(requests).requests() == Some(requests),
        RequestsModel::Hash(stored).requests_hash() == word_bytes(stored),
        RequestsModel::Hash(stored).requests() is None,
{
}

} // verus!
