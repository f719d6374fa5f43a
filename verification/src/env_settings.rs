//! The KZG trusted setup that blob commitments are verified against: either the mainnet
//! setup that the whole process shares, or a custom one that the caller has loaded.

use c_kzg::KzgSettings;
use core::mem::Discriminant;
use std::hash::Hash;
use std::hash::Hasher;
use std::sync::Arc;
use vstd::prelude::*;

verus! {

/// `c_kzg::KzgSettings`: a loaded trusted setup. Nothing is known of what is inside.
#[verifier::external_type_specification]
#[verifier::external_body]
pub struct ExKzgSettings(KzgSettings);

/// `c_kzg::Error`: why a trusted setup could not be loaded. Nothing is known of what is
/// inside.
#[verifier::external_type_specification]
#[verifier::external_body]
pub struct ExKzgError(c_kzg::Error);

/// The precompute factor with which every setup is loaded: the value recommended for
/// computing cell proofs quickly.
pub const PRECOMPUTE: u64 = 8;

/// The mainnet trusted setup, loaded with the given precompute factor.
pub uninterp spec fn mainnet_setup(precompute: u64) -> KzgSettings;

/// `c_kzg::ethereum_kzg_settings`: the mainnet setup for one precompute factor. It is
/// loaded on the first call for that factor and kept for the life of the process; every
/// later call, from any thread, gets the same instance. Factors above 15 make it panic.
#[verifier::external_body]
fn mainnet_settings(precompute: u64) -> (settings: &'static KzgSettings)
    requires
        precompute <= 15,
    ensures
        *settings == mainnet_setup(precompute),
{
    c_kzg::ethereum_kzg_settings(precompute)
}

/// `Arc::ptr_eq`: whether two handles point to one allocation. The answer goes by
/// addresses, so all that is claimed is that one allocation holds one value.
#[verifier::external_body]
fn same_allocation(a: &Arc<KzgSettings>, b: &Arc<KzgSettings>) -> (same: bool)
    ensures
        same ==> a == b,
{
    Arc::ptr_eq(a, b)
}

/// `core::mem::Discriminant`: the mark of one variant of an enum. Nothing is known of
/// what is inside.
#[verifier::external_type_specification]
#[verifier::external_body]
#[verifier::reject_recursive_types(T)]
pub struct ExDiscriminant<T>(Discriminant<T>);

/// `core::mem::discriminant`: the mark of the variant that `settings` is. The mark is no
/// part of the data a variant holds, and nothing more is claimed of it.
#[verifier::external_body]
fn variant_of(settings: &EnvKzgSettings) -> (mark: Discriminant<EnvKzgSettings>) {
    core::mem::discriminant(settings)
}

/// `Hash::hash` of a `Discriminant`: feeds the mark of a variant to the hasher. What a
/// hasher makes of its input is not modelled.
#[verifier::external_body]
fn hash_variant<H: Hasher>(mark: &Discriminant<EnvKzgSettings>, state: &mut H) {
    mark.hash(state)
}

/// `std::ptr::hash`: feeds the address at which `settings` lies, and nothing of its value,
/// to the hasher. What a hasher makes of its input is not modelled.
#[verifier::external_body]
fn hash_address<H: Hasher>(settings: &KzgSettings, state: &mut H) {
    std::ptr::hash(settings, state)
}

/// A handle on a KZG trusted setup.
#[derive(Clone, Debug)]
pub enum EnvKzgSettings {
    /// The mainnet setup, shared by the whole process.
    Default,
    /// A setup of the caller's own, shared by every clone of this handle.
    Custom(Arc<KzgSettings>),
}

impl EnvKzgSettings {
    /// The setup that the handle stands for.
    pub open spec fn setup(self) -> KzgSettings {
        match self {
            EnvKzgSettings::Default => mainnet_setup(PRECOMPUTE),
            EnvKzgSettings::Custom(settings) => *settings,
        }
    }

    /// What comparing two handles gives, where `shared` says whether two custom setups are
    /// one allocation. Default handles are equal, custom handles are equal exactly when
    /// they share their allocation, and a default handle never equals a custom one.
    pub open spec fn equal_when(self, other: Self, shared: bool) -> bool {
        match (self, other) {
            (EnvKzgSettings::Default, EnvKzgSettings::Default) => true,
            (EnvKzgSettings::Custom(_), EnvKzgSettings::Custom(_)) => shared,
            _ => false,
        }
    }

    /// The setup behind the handle. For the default handle this is the process-wide mainnet
    /// setup, loaded on first use; for a custom handle it is the setup held.
    pub fn get(&self) -> (settings: &KzgSettings)
        ensures
            *settings == self.setup(),
    {
        match self {
            EnvKzgSettings::Default => mainnet_settings(PRECOMPUTE),
            EnvKzgSettings::Custom(settings) => settings,
        }
    }

    /// Turns the outcome of loading a trusted setup into a handle: a loaded setup is put
    /// under shared ownership in a custom handle, and a failure is passed on as it is.
    pub fn from_loaded(loaded: Result<KzgSettings, c_kzg::Error>) -> (handle: Result<
        Self,
        c_kzg::Error,
    >)
        ensures
            match loaded {
                Ok(settings) => handle matches Ok(custom) && custom is Custom
                    && custom.setup() == settings,
                Err(error) => handle matches Err(passed) && passed == error,
            },
    {
        match loaded {
            Ok(settings) => Ok(EnvKzgSettings::Custom(Arc::new(settings))),
            Err(error) => Err(error),
        }
    }

    /// Compares two handles, given whether their custom setups are one allocation.
    pub fn eq_when(&self, other: &Self, shared: bool) -> (equal: bool)
        ensures
            equal == self.equal_when(*other, shared),
    {
        match (self, other) {
            (EnvKzgSettings::Default, EnvKzgSettings::Default) => true,
            (EnvKzgSettings::Custom(_), EnvKzgSettings::Custom(_)) => shared,
            _ => false,
        }
    }
}

impl Default for EnvKzgSettings {
    /// The handle on the mainnet setup.
    fn default() -> (handle: Self)
        ensures
            handle is Default,
    {
        EnvKzgSettings::Default
    }
}

impl PartialEq for EnvKzgSettings {
    /// Handles are compared by identity: two custom handles are equal only if they share
    /// one allocation, whatever the setups hold.
    fn eq(&self, other: &Self) -> (equal: bool)
        ensures
            self is Default && other is Default ==> equal,
            (self is Default) != (other is Default) ==> !equal,
            equal ==> *self == *other,
    {
        let shared = match (self, other) {
            (EnvKzgSettings::Custom(a), EnvKzgSettings::Custom(b)) => same_allocation(a, b),
            _ => false,
        };
        self.eq_when(other, shared)
    }
}

impl vstd::std_specs::cmp::PartialEqSpecImpl for EnvKzgSettings {
    /// Identity is no function of the values compared, so `==` has no specification.
    open spec fn obeys_eq_spec() -> bool {
        false
    }

    open spec fn eq_spec(&self, other: &Self) -> bool {
        *self == *other
    }
}

impl Eq for EnvKzgSettings {

}

impl Hash for EnvKzgSettings {
    /// Hashes what `==` compares: the variant, and for a custom handle the address of the
    /// allocation.
    fn hash<H: Hasher>(&self, state: &mut H) {
        let mark = variant_of(self);
        hash_variant(&mark, state);
        match self {
            EnvKzgSettings::Default => {},
            EnvKzgSettings::Custom(settings) => hash_address(settings, state),
        }
    }
}

/// All default handles stand for one setup, the mainnet setup loaded with the fixed
/// precompute factor, and compare equal.
pub proof fn lemma_default_handles_agree(a: EnvKzgSettings, b: EnvKzgSettings, shared: bool)
    requires
        a is Default,
        b is Default,
    ensures
        a.setup() == b.setup(),
        a.setup() == mainnet_setup(PRECOMPUTE),
        a.equal_when(b, shared),
{
}

/// Comparing handles does not depend on the order of the two, and a default handle never
/// equals a custom one.
pub proof fn lemma_equal_when_symmetric(a: EnvKzgSettings, b: EnvKzgSettings, shared: bool)
    ensures
        a.equal_when(b, shared) == b.equal_when(a, shared),
        (a is Default) != (b is Default) ==> !a.equal_when(b, shared),
        a is Custom && b is Custom ==> a.equal_when(b, shared) == shared,
{
}

} // verus!
