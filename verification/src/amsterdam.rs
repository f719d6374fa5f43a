//! Fields that the Amsterdam upgrade adds beside an execution payload.

use vstd::prelude::*;

verus! {

/// The data that Amsterdam adds to a new-payload request: the inclusion list.
#[derive(Clone, Debug, PartialEq, Eq, Hash)]
pub struct AmsterdamPayloadFields {
    /// The inclusion list: byte strings, in the order the proposer gave them.
    pub il: Vec<Vec<u8>>,
}

impl DeepView for AmsterdamPayloadFields {
    type V = Seq<Seq<u8>>;

    /// The inclusion list as a sequence of byte strings.
    open spec fn deep_view(&self) -> Seq<Seq<u8>> {
        self.il.deep_view()
    }
}

impl AmsterdamPayloadFields {
    /// Wraps an inclusion list.
    pub fn new(il: Vec<Vec<u8>>) -> (fields: Self)
        ensures
            fields.il == il,
    {
        Self { il }
    }
}

impl Default for AmsterdamPayloadFields {
    /// The fields with an empty inclusion list.
    fn default() -> (fields: Self)
        ensures
            fields.deep_view() == Seq::<Seq<u8>>::empty(),
    {
        let fields = Self { il: Vec::new() };
        assert(fields.deep_view() =~= Seq::<Seq<u8>>::empty());
        fields
    }
}

/// Amsterdam fields that may be absent.
#[derive(Clone, Debug, PartialEq, Eq, Hash)]
pub struct MaybeAmsterdamPayloadFields {
    fields: Option<AmsterdamPayloadFields>,
}

impl DeepView for MaybeAmsterdamPayloadFields {
    type V = Option<Seq<Seq<u8>>>;

    /// The inclusion list held, if any.
    closed spec fn deep_view(&self) -> Option<Seq<Seq<u8>>> {
        self.fields.deep_view()
    }
}

impl MaybeAmsterdamPayloadFields {
    /// The container with no fields.
    pub fn none() -> (maybe: Self)
        ensures
            maybe.deep_view() is None,
    {
        Self { fields: None }
    }

    /// The container holding `fields`.
    pub fn from_fields(fields: AmsterdamPayloadFields) -> (maybe: Self)
        ensures
            maybe.deep_view() == Some(fields.deep_view()),
    {
        Self { fields: Some(fields) }
    }

    /// Gives up the container for what it holds.
    pub fn into_inner(self) -> (inner: Option<AmsterdamPayloadFields>)
        ensures
            inner.deep_view() == self.deep_view(),
    {
        self.fields
    }

    /// The inclusion list, if the fields are present.
    pub fn il(&self) -> (il: Option<&Vec<Vec<u8>>>)
        ensures
            il.deep_view() == self.deep_view(),
    {
        match &self.fields {
            Some(fields) => Some(&fields.il),
            None => None,
        }
    }

    /// Borrows the fields, if present.
    pub fn as_ref(&self) -> (inner: Option<&AmsterdamPayloadFields>)
        ensures
            inner.deep_view() == self.deep_view(),
    {
        self.fields.as_ref()
    }
}

impl Default for MaybeAmsterdamPayloadFields {
    /// The container with no fields.
    fn default() -> (maybe: Self)
        ensures
            maybe.deep_view() is None,
    {
        Self::none()
    }
}

impl From<AmsterdamPayloadFields> for MaybeAmsterdamPayloadFields {
    fn from(fields: AmsterdamPayloadFields) -> (maybe: Self)
        ensures
            maybe.deep_view() == Some(fields.deep_view()),
    {
        Self { fields: Some(fields) }
    }
}

impl vstd::std_specs::convert::FromSpecImpl<AmsterdamPayloadFields> for MaybeAmsterdamPayloadFields {
    open spec fn obeys_from_spec() -> bool {
        true
    }

    closed spec fn from_spec(fields: AmsterdamPayloadFields) -> Self {
        Self { fields: Some(fields) }
    }
}

impl From<Option<AmsterdamPayloadFields>> for MaybeAmsterdamPayloadFields {
    fn from(fields: Option<AmsterdamPayloadFields>) -> (maybe: Self)
        ensures
            maybe.deep_view() == fields.deep_view(),
    {
        Self { fields }
    }
}

impl vstd::std_specs::convert::FromSpecImpl<Option<AmsterdamPayloadFields>> for MaybeAmsterdamPayloadFields {
    open spec fn obeys_from_spec() -> bool {
        true
    }

    closed spec fn from_spec(fields: Option<AmsterdamPayloadFields>) -> Self {
        Self { fields }
    }
}

} // verus!
