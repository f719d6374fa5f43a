//! The sidecar of an execution payload: the fields that successive upgrades added to a
//! new-payload request and that the payload itself does not hold.

use crate::amsterdam::AmsterdamPayloadFields;
use crate::amsterdam::MaybeAmsterdamPayloadFields;
use crate::cancun::CancunModel;
use crate::cancun::CancunPayloadFields;
use crate::cancun::MaybeCancunPayloadFields;
use crate::digest::word_bytes;
use crate::prague::MaybePraguePayloadFields;
use crate::prague::PraguePayloadFields;
use crate::requests::Requests;
use crate::requests::RequestsModel;
use alloy_primitives::B256;
use vstd::prelude::*;

verus! {

/// What sidecar derivation reads of a block.
#[derive(Clone, Debug, PartialEq, Eq)]
pub struct BlockFields {
    /// The parent beacon block root of the header, present from Cancun on.
    pub parent_beacon_block_root: Option<B256>,
    /// The versioned hashes of all blobs that the block's transactions carry, in block order.
    pub blob_versioned_hashes: Vec<B256>,
    /// The requests digest of the header, present from Prague on.
    pub requests_hash: Option<B256>,
}

/// What a [`BlockFields`] holds, as mathematical values.
pub struct BlockModel {
    /// The parent beacon block root, if the header has one.
    pub parent_beacon_block_root: Option<B256>,
    /// The blob versioned hashes, in block order.
    pub blob_versioned_hashes: Seq<B256>,
    /// The requests digest, if the header has one.
    pub requests_hash: Option<B256>,
}

impl DeepView for BlockFields {
    type V = BlockModel;

    open spec fn deep_view(&self) -> BlockModel {
        BlockModel {
            parent_beacon_block_root: self.parent_beacon_block_root,
            blob_versioned_hashes: self.blob_versioned_hashes@,
            requests_hash: self.requests_hash,
        }
    }
}

/// What an [`ExecutionPayloadSidecar`] holds, as mathematical values: one optional slot for
/// each upgrade.
pub struct SidecarModel {
    /// The Cancun slot.
    pub cancun: Option<CancunModel>,
    /// The Prague slot.
    pub prague: Option<RequestsModel>,
    /// The Amsterdam slot: the inclusion list.
    pub amsterdam: Option<Seq<Seq<u8>>>,
}

impl SidecarModel {
    /// The sidecar of a payload from before Cancun: every slot is empty.
    pub open spec fn none() -> Self {
        SidecarModel { cancun: None, prague: None, amsterdam: None }
    }

    /// The sidecar of a Cancun payload.
    pub open spec fn v3(cancun: CancunModel) -> Self {
        SidecarModel { cancun: Some(cancun), prague: None, amsterdam: None }
    }

    /// The sidecar of a Prague payload.
    pub open spec fn v4(cancun: CancunModel, prague: RequestsModel) -> Self {
        SidecarModel { cancun: Some(cancun), prague: Some(prague), amsterdam: None }
    }

    /// The sidecar of an Amsterdam payload.
    pub open spec fn v5(cancun: CancunModel, prague: RequestsModel, amsterdam: Seq<Seq<u8>>) -> Self {
        SidecarModel { cancun: Some(cancun), prague: Some(prague), amsterdam: Some(amsterdam) }
    }

    /// The Cancun fields that a block gives: its beacon root with all its blob hashes, where
    /// it has a beacon root.
    pub open spec fn block_cancun(block: BlockModel) -> Option<CancunModel> {
        match block.parent_beacon_block_root {
            Some(root) => Some(
                CancunModel {
                    parent_beacon_block_root: root,
                    versioned_hashes: block.blob_versioned_hashes,
                },
            ),
            None => None,
        }
    }

    /// The Prague fields that a block gives: its requests digest, where it has one.
    pub open spec fn block_prague(block: BlockModel) -> Option<RequestsModel> {
        match block.requests_hash {
            Some(hash) => Some(RequestsModel::Hash(hash)),
            None => None,
        }
    }

    /// The sidecar derived from a block. Cancun and Prague fields together give a Prague
    /// sidecar and Cancun fields alone a Cancun sidecar. Without Cancun fields the sidecar
    /// is empty, whether or not the block has a requests digest. The Amsterdam slot is
    /// never filled from a block.
    pub open spec fn from_block(block: BlockModel) -> Self {
        match (Self::block_cancun(block), Self::block_prague(block)) {
            (Some(cancun), Some(prague)) => Self::v4(cancun, prague),
            (Some(cancun), None) => Self::v3(cancun),
            _ => Self::none(),
        }
    }

    /// Whether the slots are filled as upgrades follow one another: a filled slot has every
    /// earlier slot filled too.
    pub open spec fn is_cumulative(self) -> bool {
        &&& self.amsterdam is Some ==> self.prague is Some
        &&& self.prague is Some ==> self.cancun is Some
    }

    /// The parent beacon block root, where the Cancun slot is filled.
    pub open spec fn parent_beacon_block_root(self) -> Option<B256> {
        match self.cancun {
            Some(cancun) => Some(cancun.parent_beacon_block_root),
            None => None,
        }
    }

    /// The blob versioned hashes, where the Cancun slot is filled.
    pub open spec fn versioned_hashes(self) -> Option<Seq<B256>> {
        match self.cancun {
            Some(cancun) => Some(cancun.versioned_hashes),
            None => None,
        }
    }

    /// The requests, where the Prague slot is filled and holds the list itself.
    pub open spec fn requests(self) -> Option<Seq<Seq<u8>>> {
        match self.prague {
            Some(prague) => prague.requests(),
            None => None,
        }
    }

    /// The bytes of the requests digest, where the Prague slot is filled.
    pub open spec fn requests_hash(self) -> Option<Seq<u8>> {
        match self.prague {
            Some(prague) => Some(prague.requests_hash()),
            None => None,
        }
    }

    /// The inclusion list, where the Amsterdam slot is filled.
    pub open spec fn il(self) -> Option<Seq<Seq<u8>>> {
        self.amsterdam
    }
}

/// All fields of a new-payload request that the payload itself does not hold, one optional
/// slot for each upgrade.
#[derive(Clone, Debug)]
pub struct ExecutionPayloadSidecar {
    cancun: MaybeCancunPayloadFields,
    prague: MaybePraguePayloadFields,
    amsterdam: MaybeAmsterdamPayloadFields,
}

impl DeepView for ExecutionPayloadSidecar {
    type V = SidecarModel;

    closed spec fn deep_view(&self) -> SidecarModel {
        SidecarModel {
            cancun: self.cancun.deep_view(),
            prague: self.prague.deep_view(),
            amsterdam: self.amsterdam.deep_view(),
        }
    }
}

impl ExecutionPayloadSidecar {
    /// Derives the sidecar of a block from its beacon root, its blob hashes and its
    /// requests digest. A block without a beacon root gives the empty sidecar, also where
    /// it has a requests digest.
    pub fn from_block(block: &BlockFields) -> (sidecar: Self)
        ensures
            sidecar.deep_view() == SidecarModel::from_block(block.deep_view()),
    {
        let cancun = match block.parent_beacon_block_root {
            Some(parent_beacon_block_root) => Some(
                CancunPayloadFields {
                    parent_beacon_block_root,
                    versioned_hashes: block.blob_versioned_hashes.clone(),
                },
            ),
            None => None,
        };
        let prague = match block.requests_hash {
            Some(hash) => Some(PraguePayloadFields::new(hash)),
            None => None,
        };
        match (cancun, prague) {
            (Some(cancun), Some(prague)) => Self::v4(cancun, prague),
            (Some(cancun), None) => Self::v3(cancun),
            _ => Self::none(),
        }
    }

    /// The empty sidecar, for payloads from before Cancun.
    pub fn none() -> (sidecar: Self)
        ensures
            sidecar.deep_view() == SidecarModel::none(),
    {
        Self {
            cancun: MaybeCancunPayloadFields::none(),
            prague: MaybePraguePayloadFields::none(),
            amsterdam: MaybeAmsterdamPayloadFields::none(),
        }
    }

    /// The sidecar of a Cancun payload: only the Cancun slot is filled.
    pub fn v3(cancun: CancunPayloadFields) -> (sidecar: Self)
        ensures
            sidecar.deep_view() == SidecarModel::v3(cancun.deep_view()),
    {
        Self {
            cancun: MaybeCancunPayloadFields::from(cancun),
            prague: MaybePraguePayloadFields::none(),
            amsterdam: MaybeAmsterdamPayloadFields::none(),
        }
    }

    /// The sidecar of a Prague payload: the Cancun and Prague slots are filled.
    pub fn v4(cancun: CancunPayloadFields, prague: PraguePayloadFields) -> (sidecar: Self)
        ensures
            sidecar.deep_view() == SidecarModel::v4(cancun.deep_view(), prague.deep_view()),
    {
        Self {
            cancun: MaybeCancunPayloadFields::from(cancun),
            prague: MaybePraguePayloadFields::from(prague),
            amsterdam: MaybeAmsterdamPayloadFields::none(),
        }
    }

    /// The sidecar of an Amsterdam payload: all three slots are filled.
    pub fn v5(
        cancun: CancunPayloadFields,
        prague: PraguePayloadFields,
        amsterdam: AmsterdamPayloadFields,
    ) -> (sidecar: Self)
        ensures
            sidecar.deep_view() == SidecarModel::v5(
                cancun.deep_view(),
                prague.deep_view(),
                amsterdam.deep_view(),
            ),
    {
        Self {
            cancun: MaybeCancunPayloadFields::from(cancun),
            prague: MaybePraguePayloadFields::from(prague),
            amsterdam: MaybeAmsterdamPayloadFields::from(amsterdam),
        }
    }

    /// The sidecar with the given slots, in whatever combination: nothing asks that a filled
    /// slot has the earlier slots filled.
    pub fn from_parts(
        cancun: MaybeCancunPayloadFields,
        prague: MaybePraguePayloadFields,
        amsterdam: MaybeAmsterdamPayloadFields,
    ) -> (sidecar: Self)
        ensures
            sidecar.deep_view() == (SidecarModel {
                cancun: cancun.deep_view(),
                prague: prague.deep_view(),
                amsterdam: amsterdam.deep_view(),
            }),
    {
        Self { cancun, prague, amsterdam }
    }

    /// Borrows the Cancun fields, if present.
    pub fn cancun(&self) -> (fields: Option<&CancunPayloadFields>)
        ensures
            fields.deep_view() == self.deep_view().cancun,
    {
        self.cancun.as_ref()
    }

    /// Gives up the sidecar for its Cancun fields.
    pub fn into_cancun(self) -> (fields: Option<CancunPayloadFields>)
        ensures
            fields.deep_view() == self.deep_view().cancun,
    {
        self.cancun.into_inner()
    }

    /// Borrows the Prague fields, if present.
    pub fn prague(&self) -> (fields: Option<&PraguePayloadFields>)
        ensures
            fields.deep_view() == self.deep_view().prague,
    {
        self.prague.as_ref()
    }

    /// Gives up the sidecar for its Prague fields.
    pub fn into_prague(self) -> (fields: Option<PraguePayloadFields>)
        ensures
            fields.deep_view() == self.deep_view().prague,
    {
        self.prague.into_inner()
    }

    /// Borrows the Amsterdam fields, if present.
    pub fn amsterdam(&self) -> (fields: Option<&AmsterdamPayloadFields>)
        ensures
            fields.deep_view() == self.deep_view().amsterdam,
    {
        self.amsterdam.as_ref()
    }

    /// Gives up the sidecar for its Amsterdam fields.
    pub fn into_amsterdam(self) -> (fields: Option<AmsterdamPayloadFields>)
        ensures
            fields.deep_view() == self.deep_view().amsterdam,
    {
        self.amsterdam.into_inner()
    }

    /// The parent beacon block root, if the Cancun slot is filled.
    pub fn parent_beacon_block_root(&self) -> (root: Option<B256>)
        ensures
            root == self.deep_view().parent_beacon_block_root(),
    {
        self.cancun.parent_beacon_block_root()
    }

    /// The blob versioned hashes, if the Cancun slot is filled.
    pub fn versioned_hashes(&self) -> (hashes: Option<&Vec<B256>>)
        ensures
            match hashes {
                Some(hashes) => self.deep_view().versioned_hashes() == Some(hashes@),
                None => self.deep_view().versioned_hashes() is None,
            },
    {
        self.cancun.versioned_hashes()
    }

    /// The requests, if the Prague slot is filled and holds the list itself. A slot that
    /// holds only a digest gives `None`.
    pub fn requests(&self) -> (requests: Option<&Requests>)
        ensures
            requests.deep_view() == self.deep_view().requests(),
    {
        self.prague.requests()
    }

    /// The inclusion list, if the Amsterdam slot is filled.
    pub fn il(&self) -> (il: Option<&Vec<Vec<u8>>>)
        ensures
            il.deep_view() == self.deep_view().il(),
    {
        self.amsterdam.il()
    }

    /// The requests digest, if the Prague slot is filled: the stored digest as it is, or
    /// else the digest computed from the list.
    pub fn requests_hash(&self) -> (hash: Option<B256>)
        ensures
            match hash {
                Some(hash) => self.deep_view().requests_hash() == Some(word_bytes(hash)) && (
                self.deep_view().prague matches Some(RequestsModel::Hash(stored)) ==> hash
                    == stored),
                None => self.deep_view().requests_hash() is None,
            },
    {
        self.prague.requests_hash()
    }
}

impl Default for ExecutionPayloadSidecar {
    /// The empty sidecar.
    fn default() -> (sidecar: Self)
        ensures
            sidecar.deep_view() == SidecarModel::none(),
    {
        Self::none()
    }
}

/// The empty sidecar exposes no field of any upgrade.
pub proof fn lemma_none_exposes_nothing()
    ensures
        SidecarModel::none().parent_beacon_block_root() is None,
        SidecarModel::none().versioned_hashes() is None,
        SidecarModel::none().requests() is None,
        SidecarModel::none().requests_hash() is None,
        SidecarModel::none().il() is None,
{
}

/// A Cancun sidecar holds the Cancun fields it was built from, and nothing of Prague or
/// Amsterdam.
pub proof fn lemma_v3_fills_cancun_only(cancun: CancunModel)
    ensures
        SidecarModel::v3(cancun).cancun == Some(cancun),
        SidecarModel::v3(cancun).prague is None,
        SidecarModel::v3(cancun).amsterdam is None,
{
}

/// A Prague sidecar holds the Cancun and Prague fields it was built from, and nothing of
/// Amsterdam.
pub proof fn lemma_v4_fills_cancun_and_prague(cancun: CancunModel, prague: RequestsModel)
    ensures
        SidecarModel::v4(cancun, prague).cancun == Some(cancun),
        SidecarModel::v4(cancun, prague).prague == Some(prague),
        SidecarModel::v4(cancun, prague).amsterdam is None,
{
}

/// An Amsterdam sidecar exposes what it was built from: the inclusion list of its
/// Amsterdam fields, the requests digest of its Prague fields, and the root and hashes of
/// its Cancun fields.
pub proof fn lemma_v5_exposes_all(
    cancun: CancunModel,
    prague: RequestsModel,
    amsterdam: Seq<Seq<u8>>,
)
    ensures
        SidecarModel::v5(cancun, prague, amsterdam).il() == Some(amsterdam),
        SidecarModel::v5(cancun, prague, amsterdam).requests_hash() == Some(
            prague.requests_hash(),
        ),
        SidecarModel::v5(cancun, prague, amsterdam).requests() == prague.requests(),
        SidecarModel::v5(cancun, prague, amsterdam).parent_beacon_block_root() == Some(
            cancun.parent_beacon_block_root,
        ),
        SidecarModel::v5(cancun, prague, amsterdam).versioned_hashes() == Some(
            cancun.versioned_hashes,
        ),
{
}

/// A block with a beacon root and without a requests digest gives the Cancun sidecar of
/// that root and of the block's blob hashes.
pub proof fn lemma_from_block_cancun_only(block: BlockModel)
    requires
        block.parent_beacon_block_root is Some,
        block.requests_hash is None,
    ensures
        SidecarModel::from_block(block) == SidecarModel::v3(
            CancunModel {
                parent_beacon_block_root: block.parent_beacon_block_root->0,
                versioned_hashes: block.blob_versioned_hashes,
            },
        ),
{
}

/// A block with a beacon root and a requests digest gives the Prague sidecar of the root,
/// the block's blob hashes and the digest.
pub proof fn lemma_from_block_cancun_and_prague(block: BlockModel)
    requires
        block.parent_beacon_block_root is Some,
        block.requests_hash is Some,
    ensures
        SidecarModel::from_block(block) == SidecarModel::v4(
            CancunModel {
                parent_beacon_block_root: block.parent_beacon_block_root->0,
                versioned_hashes: block.blob_versioned_hashes,
            },
            RequestsModel::Hash(block.requests_hash->0),
        ),
{
}

/// A block without a beacon root gives the empty sidecar, whatever else it has: a requests
/// digest alone is dropped.
pub proof fn lemma_from_block_without_root(block: BlockModel)
    requires
        block.parent_beacon_block_root is None,
    ensures
        SidecarModel::from_block(block) == SidecarModel::none(),
{
}

/// Whatever the versioned constructors and block derivation build is cumulative, and block
/// derivation never fills the Amsterdam slot.
pub proof fn lemma_built_sidecars_are_cumulative(
    block: BlockModel,
    cancun: CancunModel,
    prague: RequestsModel,
    amsterdam: Seq<Seq<u8>>,
)
    ensures
        SidecarModel::none().is_cumulative(),
        SidecarModel::v3(cancun).is_cumulative(),
        SidecarModel::v4(cancun, prague).is_cumulative(),
        SidecarModel::v5(cancun, prague, amsterdam).is_cumulative(),
        SidecarModel::from_block(block).is_cumulative(),
        SidecarModel::from_block(block).amsterdam is None,
{
}

} // verus!
