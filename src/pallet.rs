use vstd::prelude::*;
use std::marker::PhantomData;

verus! {

/// The origin of a dispatched call.
pub enum RawOrigin<AccountId> {
    Root,
    Signed(AccountId),
    /// No origin at all, as for an unsigned transaction.
    NoOrigin,
}

/// Why a dispatched call failed.
pub enum DispatchError {
    Other(&'static str),
    CannotLookup,
    BadOrigin,
    Module { index: u8, error: u8, message: Option<&'static str> },
    ConsumerRemaining,
    NoProviders,
}

/// A dispatch error together with what was spent before it.
pub struct DispatchErrorWithPostInfo<Info> where Info: Eq + PartialEq + Clone + Copy {
    pub post_info: Info,
    pub error: DispatchError,
}

/// Something that can be dispatched.
pub trait Dispatchable {}

pub struct CallImpl {}

impl Dispatchable for CallImpl {}

/// An origin type, with the call type it dispatches.
pub trait OriginTrait: Sized {
    type Call;
}

#[derive(Clone)]
pub struct OriginImpl {}

impl From<RawOrigin<i32>> for OriginImpl {
    /// An `OriginImpl` carries nothing, so every raw origin maps to the same value.
    fn from(_raw: RawOrigin<i32>) -> (r: OriginImpl) {
        OriginImpl {}
    }
}

impl vstd::std_specs::convert::FromSpecImpl<RawOrigin<i32>> for OriginImpl {
    open spec fn obeys_from_spec() -> bool {
        true
    }

    open spec fn from_spec(v: RawOrigin<i32>) -> OriginImpl {
        OriginImpl {}
    }
}

impl OriginTrait for OriginImpl {
    type Call = CallImpl;
}

/// The configuration a pallet is generic over.
pub trait Config: 'static + Eq + Clone {
    type AccountId: Ord + Default;
    type Call: Dispatchable;
    type Origin: From<RawOrigin<Self::AccountId>> + Clone + OriginTrait<Call = Self::Call>;
}

#[derive(Clone)]
pub struct ConfigImpl {}

impl Config for ConfigImpl {
    type AccountId = i32;
    type Call = CallImpl;
    type Origin = OriginImpl;
}

impl PartialEq for ConfigImpl {
    fn eq(&self, _other: &Self) -> (r: bool)
        ensures
            r,
    {
        true
    }
}

impl vstd::std_specs::cmp::PartialEqSpecImpl for ConfigImpl {
    open spec fn obeys_eq_spec() -> bool {
        true
    }

    open spec fn eq_spec(&self, other: &ConfigImpl) -> bool {
        true
    }
}

impl Eq for ConfigImpl {}

/// The outcome of a dispatched call.
pub type DispatchResult = Result<(), DispatchError>;

/// A storage item holding one flag.
pub struct XYZ<T> {
    pub phantomdata: PhantomData<T>,
}

impl<T> XYZ<T> {
    /// Stores the flag.
    pub fn put(_b: bool) {
    }
}

/// Checks that the origin is the root origin; every origin passes here.
pub fn ensure_root<T: Config>(_origin: T::Origin) -> (r: DispatchResult)
    ensures
        r is Ok,
{
    Ok(())
}

/// Writes the flag, then checks the origin: the write stays even where the
/// check fails.
pub fn xyz_should_match<T: Config>(origin: T::Origin) -> (r: DispatchResult)
    ensures
        r is Ok,
{
    XYZ::<T>::put(true);
    ensure_root::<T>(origin)?;
    Ok(())
}

/// The same shape with the check's result bound to a name.
pub fn xyz_should_not_match<T: Config>(origin: T::Origin) -> (r: DispatchResult)
    ensures
        r is Ok,
{
    XYZ::<T>::put(true);
    let _ret = ensure_root::<T>(origin)?;
    Ok(())
}

} // verus!
