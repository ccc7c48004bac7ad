//! Compile-time descriptors of what a handle may do: where its buffer lives,
//! who owns it, and which element type it claims.
use vstd::prelude::*;
use core::marker::PhantomData;
use crate::halide::HalideType;
use crate::seal::Sealed;

verus! {

/// Where a buffer lives.
#[derive(Debug, Clone, Copy, PartialEq, Eq, Hash, Structural)]
pub enum Location {
    Host,
    Device,
}

/// What a handle is to its buffer.
#[derive(Debug, Clone, Copy, PartialEq, Eq, Hash, Structural)]
pub enum Ownership {
    Owned,
    Borrowed,
    MutablyBorrowed,
}

/// A capability descriptor: location, ownership and element type, all fixed
/// at compile time.
pub trait TensorType: Sealed {
    type H: HalideType;

    /// Where buffers of this capability live.
    spec fn location() -> Location;

    /// What a handle of this capability is to its buffer.
    spec fn ownership() -> Ownership;

    fn owned() -> (b: bool)
        ensures
            b == (Self::ownership() == Ownership::Owned),
    ;

    fn borrowed() -> (b: bool)
        ensures
            b == (Self::ownership() != Ownership::Owned),
    {
        !Self::owned()
    }

    fn host() -> (b: bool)
        ensures
            b == (Self::location() == Location::Host),
    ;

    fn device() -> (b: bool)
        ensures
            b == (Self::location() == Location::Device),
    {
        !Self::host()
    }

    /// Whether handles of this capability may write to their buffer.
    fn mutable() -> (b: bool)
        ensures
            b == (Self::ownership() != Ownership::Borrowed),
    ;
}

/// Whether handles of capability `T` may write to their buffer: owned and
/// mutably borrowed ones may, immutably borrowed ones may not.
pub open spec fn is_mutable<T: TensorType + ?Sized>() -> bool {
    T::ownership() != Ownership::Borrowed
}

/// Capabilities that own their buffer.
pub trait OwnedTensorType: TensorType {
    proof fn lemma_owned()
        ensures
            Self::ownership() == Ownership::Owned,
    ;
}

/// Capabilities that borrow their buffer, mutably or not.
pub trait RefTensorType: TensorType {
    proof fn lemma_ref()
        ensures
            Self::ownership() != Ownership::Owned,
    ;
}

/// Capabilities whose buffer lives in host memory.
pub trait HostTensorType: TensorType {
    proof fn lemma_host()
        ensures
            Self::location() == Location::Host,
    ;
}

/// Capabilities whose buffer lives in device memory.
pub trait DeviceTensorType: TensorType {
    proof fn lemma_device()
        ensures
            Self::location() == Location::Device,
    ;
}

/// Capabilities that may write to their buffer.
pub trait MutableTensorType: TensorType {
    proof fn lemma_mutable()
        ensures
            is_mutable::<Self>(),
    ;
}

/// An owned buffer in host memory.
pub struct Host<T> {
    pub(crate) __marker: PhantomData<T>,
}

/// An owned buffer in device memory.
pub struct Device<T> {
    pub(crate) __marker: PhantomData<T>,
}

/// An immutable borrow of a buffer of capability `T`.
pub struct Ref<'t, T> {
    pub(crate) __marker: PhantomData<&'t [T]>,
}

/// A mutable borrow of a buffer of capability `T`.
pub struct RefMut<'t, T> {
    pub(crate) __marker: PhantomData<&'t mut [T]>,
}

/// A capability whose exact type has been erased; it answers as `T` does.
pub struct Dyn<T> {
    __marker: PhantomData<T>,
}

impl<T> Sealed for Host<T> {
}

impl<T> Sealed for Device<T> {
}

impl<'t, T> Sealed for Ref<'t, T> {
}

impl<'t, T> Sealed for RefMut<'t, T> {
}

impl<T> Sealed for Dyn<T> {
}

impl<H: HalideType> TensorType for Host<H> {
    type H = H;

    open spec fn location() -> Location {
        Location::Host
    }

    open spec fn ownership() -> Ownership {
        Ownership::Owned
    }

    fn owned() -> (b: bool) {
        true
    }

    fn host() -> (b: bool) {
        true
    }

    fn mutable() -> (b: bool) {
        true
    }
}

impl<H: HalideType> TensorType for Device<H> {
    type H = H;

    open spec fn location() -> Location {
        Location::Device
    }

    open spec fn ownership() -> Ownership {
        Ownership::Owned
    }

    fn owned() -> (b: bool) {
        true
    }

    fn host() -> (b: bool) {
        false
    }

    fn mutable() -> (b: bool) {
        true
    }
}

impl<'t, T: TensorType> TensorType for Ref<'t, T> {
    type H = T::H;

    open spec fn location() -> Location {
        T::location()
    }

    open spec fn ownership() -> Ownership {
        Ownership::Borrowed
    }

    fn owned() -> (b: bool) {
        false
    }

    fn host() -> (b: bool) {
        T::host()
    }

    fn mutable() -> (b: bool) {
        false
    }
}

impl<'t, T: TensorType> TensorType for RefMut<'t, T> {
    type H = T::H;

    open spec fn location() -> Location {
        T::location()
    }

    open spec fn ownership() -> Ownership {
        Ownership::MutablyBorrowed
    }

    fn owned() -> (b: bool) {
        false
    }

    fn host() -> (b: bool) {
        T::host()
    }

    fn mutable() -> (b: bool) {
        true
    }
}

impl<T: TensorType> TensorType for Dyn<T> {
    type H = T::H;

    open spec fn location() -> Location {
        T::location()
    }

    open spec fn ownership() -> Ownership {
        T::ownership()
    }

    fn owned() -> (b: bool) {
        T::owned()
    }

    fn borrowed() -> (b: bool) {
        T::borrowed()
    }

    fn host() -> (b: bool) {
        T::host()
    }

    fn device() -> (b: bool) {
        T::device()
    }

    fn mutable() -> (b: bool) {
        T::mutable()
    }
}

impl<H: HalideType> DeviceTensorType for Device<H> {
    proof fn lemma_device() {
    }
}

impl<H: HalideType> HostTensorType for Host<H> {
    proof fn lemma_host() {
    }
}

impl<H: HalideType> OwnedTensorType for Device<H> {
    proof fn lemma_owned() {
    }
}

impl<H: HalideType> OwnedTensorType for Host<H> {
    proof fn lemma_owned() {
    }
}

impl<'t, T: DeviceTensorType> DeviceTensorType for Ref<'t, T> {
    proof fn lemma_device() {
        T::lemma_device();
    }
}

impl<'t, T: DeviceTensorType> DeviceTensorType for RefMut<'t, T> {
    proof fn lemma_device() {
        T::lemma_device();
    }
}

impl<'t, T: HostTensorType> HostTensorType for Ref<'t, T> {
    proof fn lemma_host() {
        T::lemma_host();
    }
}

impl<'t, T: HostTensorType> HostTensorType for RefMut<'t, T> {
    proof fn lemma_host() {
        T::lemma_host();
    }
}

impl<T: OwnedTensorType> MutableTensorType for T {
    proof fn lemma_mutable() {
        T::lemma_owned();
    }
}

impl<'t, T: TensorType> MutableTensorType for RefMut<'t, T> {
    proof fn lemma_mutable() {
    }
}

impl<'t, T: TensorType> RefTensorType for Ref<'t, T> {
    proof fn lemma_ref() {
    }
}

impl<'t, T: TensorType> RefTensorType for RefMut<'t, T> {
    proof fn lemma_ref() {
    }
}

} // verus!
