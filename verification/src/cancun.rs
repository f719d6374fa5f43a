//! Fields that the Cancun upgrade adds beside an execution payload.

use alloy_primitives::B256;
use vstd::prelude::*;

verus! {

/// The data that Cancun adds to a new-payload request.
#[derive(Clone, Debug, PartialEq, Eq, Hash)]
pub struct CancunPayloadFields {
    /// Root of the parent beacon block.
    pub parent_beacon_block_root: B256,
    /// Versioned hashes of the blobs that the payload commits to, in payload order.
    pub versioned_hashes: Vec<B256>,
}

/// What a [`CancunPayloadFields`] holds, as mathematical values.
pub struct CancunModel {
    /// Root of the parent beacon block.
    pub parent_beacon_block_root: B256,
    /// The blob versioned hashes, in order.
    pub versioned_hashes: Seq<B256>,
}

impl DeepView for CancunPayloadFields {
    type V = CancunModel;

    open spec fn deep_view(&self) -> CancunModel {
        CancunModel {
            parent_beacon_block_root: self.parent_beacon_block_root,
            versioned_hashes: self.versioned_hashes@,
        }
    }
}

impl CancunPayloadFields {
    /// Puts a beacon root and a list of blob versioned hashes together.
    pub fn new(parent_beacon_block_root: B256, versioned_hashes: Vec<B256>) -> (fields: Self)
        ensures
            fields.parent_beacon_block_root == parent_beacon_block_root,
            fields.versioned_hashes == versioned_hashes,
    {
        Self { parent_beacon_block_root, versioned_hashes }
    }
}

/// Cancun fields that may be absent.
#[derive(Clone, Debug, PartialEq, Eq, Hash)]
pub struct MaybeCancunPayloadFields {
    fields: Option<CancunPayloadFields>,
}

impl DeepView for MaybeCancunPayloadFields {
    type V = Option<CancunModel>;

    /// The fields held, if any.
    closed spec fn deep_view(&self) -> Option<CancunModel> {
        self.fields.deep_view()
    }
}

impl MaybeCancunPayloadFields {
    /// The container with no fields.
    pub fn none() -> (maybe: Self)
        ensures
            maybe.deep_view() is None,
    {
        Self { fields: None }
    }

    /// The container holding `fields`.
    pub fn from_fields(fields: CancunPayloadFields) -> (maybe: Self)
        ensures
            maybe.deep_view() == Some(fields.deep_view()),
    {
        Self { fields: Some(fields) }
    }

    /// Gives up the container for what it holds.
    pub fn into_inner(self) -> (inner: Option<CancunPayloadFields>)
        ensures
            inner.deep_view() == self.deep_view(),
    {
        self.fields
    }

    /// The parent beacon block root, if the fields are present.
    pub fn parent_beacon_block_root(&self) -> (root: Option<B256>)
        ensures
            root == match self.deep_view() {
                Some(fields) => Some(fields.parent_beacon_block_root),
                None => None,
            },
    {
        match &self.fields {
            Some(fields) => Some(fields.parent_beacon_block_root),
            None => None,
        }
    }

    /// The blob versioned hashes, if the fields are present.
    pub fn versioned_hashes(&self) -> (hashes: Option<&Vec<B256>>)
        ensures
            match hashes {
                Some(hashes) => self.deep_view() matches Some(fields) && fields.versioned_hashes
                    == hashes@,
                None => self.deep_view() is None,
            },
    {
        match &self.fields {
            Some(fields) => Some(&fields.versioned_hashes),
            None => None,
        }
    }

    /// Borrows the fields, if present.
    pub fn as_ref(&self) -> (inner: Option<&CancunPayloadFields>)
        ensures
            inner.deep_view() == self.deep_view(),
    {
        self.fields.as_ref()
    }
}

impl Default for MaybeCancunPayloadFields {
    /// The container with no fields.
    fn default() -> (maybe: Self)
        ensures
            maybe.deep_view() is None,
    {
        Self::none()
    }
}

impl From<CancunPayloadFields> for MaybeCancunPayloadFields {
    fn from(fields: CancunPayloadFields) -> (maybe: Self)
        ensures
            maybe.deep_view() == Some(fields.deep_view()),
    {
        Self { fields: Some(fields) }
    }
}

impl vstd::std_specs::convert::FromSpecImpl<CancunPayloadFields> for MaybeCancunPayloadFields {
    open spec fn obeys_from_spec() -> bool {
        true
    }

    closed spec fn from_spec(fields: CancunPayloadFields) -> Self {
        Self { fields: Some(fields) }
    }
}

impl From<Option<CancunPayloadFields>> for MaybeCancunPayloadFields {
    fn from(fields: Option<CancunPayloadFields>) -> (maybe: Self)
        ensures
            maybe.deep_view() == fields.deep_view(),
    {
        Self { fields }
    }
}

impl vstd::std_specs::convert::FromSpecImpl<Option<CancunPayloadFields>> for MaybeCancunPayloadFields {
    open spec fn obeys_from_spec() -> bool {
        true
    }

    closed spec fn from_spec(fields: Option<CancunPayloadFields>) -> Self {
        Self { fields }
    }
}

} // verus!
