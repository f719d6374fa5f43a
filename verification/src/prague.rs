//! Fields that the Prague upgrade adds beside an execution payload.

use crate::digest::word_bytes;
use crate::requests::Requests;
use crate::requests::RequestsModel;
use crate::requests::RequestsOrHash;
use alloy_primitives::B256;
use vstd::prelude::*;
use vstd::std_specs::convert::IntoSpec;

verus! {

/// The data that Prague adds to a new-payload request: the block's requests, or the digest
/// that stands for them.
#[derive(Clone, Debug, PartialEq, Eq, Hash)]
pub struct PraguePayloadFields {
    /// The requests, or their digest.
    pub requests: RequestsOrHash,
}

impl DeepView for PraguePayloadFields {
    type V = RequestsModel;

    open spec fn deep_view(&self) -> RequestsModel {
        self.requests.deep_view()
    }
}

impl PraguePayloadFields {
    /// Builds the fields from a list of requests or from a digest.
    pub fn new<T: Into<RequestsOrHash>>(requests: T) -> (fields: Self)
        ensures
            call_ensures(T::into, (requests,), fields.requests),
            T::obeys_into_spec() ==> fields.requests == requests.into_spec(),
    {
        Self { requests: requests.into() }
    }

    /// The requests, if the list itself is held. Fields that hold only a digest give
    /// `None`.
    pub fn requests(&self) -> (requests: Option<&Requests>)
        ensures
            requests.deep_view() == self.deep_view().requests(),
    {
        self.requests.requests()
    }

    /// The requests digest: a stored digest as it is, or else the digest computed from the
    /// list.
    pub fn requests_hash(&self) -> (hash: B256)
        ensures
            word_bytes(hash) == self.deep_view().requests_hash(),
            self.requests matches RequestsOrHash::Hash(stored) ==> hash == stored,
    {
        self.requests.requests_hash()
    }
}

/// Prague fields that may be absent.
#[derive(Clone, Debug, PartialEq, Eq, Hash)]
pub struct MaybePraguePayloadFields {
    fields: Option<PraguePayloadFields>,
}

impl DeepView for MaybePraguePayloadFields {
    type V = Option<RequestsModel>;

    /// The fields held, if any.
    closed spec fn deep_view(&self) -> Option<RequestsModel> {
        self.fields.deep_view()
    }
}

impl MaybePraguePayloadFields {
    /// The container with no fields.
    pub fn none() -> (maybe: Self)
        ensures
            maybe.deep_view() is None,
    {
        Self { fields: None }
    }

    /// The container holding `fields`.
    pub fn from_fields(fields: PraguePayloadFields) -> (maybe: Self)
        ensures
            maybe.deep_view() == Some(fields.deep_view()),
    {
        Self { fields: Some(fields) }
    }

    /// Gives up the container for what it holds.
    pub fn into_inner(self) -> (inner: Option<PraguePayloadFields>)
        ensures
            inner.deep_view() == self.deep_view(),
    {
        self.fields
    }

    /// The requests, if the fields are present and hold the list itself.
    pub fn requests(&self) -> (requests: Option<&Requests>)
        ensures
            requests.deep_view() == match self.deep_view() {
                Some(fields) => fields.requests(),
                None => None,
            },
    {
        match &self.fields {
            Some(fields) => fields.requests.requests(),
            None => None,
        }
    }

    /// The requests digest, if the fields are present: the stored digest, or else the digest
    /// of the list.
    pub fn requests_hash(&self) -> (hash: Option<B256>)
        ensures
            match hash {
                Some(hash) => self.deep_view() matches Some(fields) && word_bytes(hash)
                    == fields.requests_hash() && (fields matches RequestsModel::Hash(stored)
                    ==> hash == stored),
                None => self.deep_view() is None,
            },
    {
        match &self.fields {
            Some(fields) => Some(fields.requests.requests_hash()),
            None => None,
        }
    }

    /// Borrows the fields, if present.
    pub fn as_ref(&self) -> (inner: Option<&PraguePayloadFields>)
        ensures
            inner.deep_view() == self.deep_view(),
    {
        self.fields.as_ref()
    }
}

impl Default for MaybePraguePayloadFields {
    /// The container with no fields.
    fn default() -> (maybe: Self)
        ensures
            maybe.deep_view() is None,
    {
        Self::none()
    }
}

impl From<PraguePayloadFields> for MaybePraguePayloadFields {
    fn from(fields: PraguePayloadFields) -> (maybe: Self)
        ensures
            maybe.deep_view() == Some(fields.deep_view()),
    {
        Self { fields: Some(fields) }
    }
}

impl vstd::std_specs::convert::FromSpecImpl<PraguePayloadFields> for MaybePraguePayloadFields {
    open spec fn obeys_from_spec() -> bool {
        true
    }

    closed spec fn from_spec(fields: PraguePayloadFields) -> Self {
        Self { fields: Some(fields) }
    }
}

impl From<Option<PraguePayloadFields>> for MaybePraguePayloadFields {
    fn from(fields: Option<PraguePayloadFields>) -> (maybe: Self)
        ensures
            maybe.deep_view() == fields.deep_view(),
    {
        Self { fields }
    }
}

impl vstd::std_specs::convert::FromSpecImpl<Option<PraguePayloadFields>> for MaybePraguePayloadFields {
    open spec fn obeys_from_spec() -> bool {
        true
    }

    closed spec fn from_spec(fields: Option<PraguePayloadFields>) -> Self {
        Self { fields }
    }
}

} // verus!
