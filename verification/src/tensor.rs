//! Tensor handles: a buffer's address together with the capability that says
//! what may be done with it.
use vstd::prelude::*;
use core::marker::PhantomData;
use crate::capability::is_mutable;
use crate::capability::Device;
use crate::capability::DeviceTensorType;
use crate::capability::Host;
use crate::capability::HostTensorType;
use crate::capability::Location;
use crate::capability::MutableTensorType;
use crate::capability::Ownership;
use crate::capability::OwnedTensorType;
use crate::capability::Ref;
use crate::capability::RefMut;
use crate::capability::TensorType;
use crate::dimension::DimensionType;
use crate::engine::copies;
use crate::engine::fits;
use crate::engine::Engine;
use crate::error::ErrorKind;
use crate::halide::fill_slice;
use crate::halide::uniform;
use crate::halide::halide_type_of;
use crate::halide::HalideType;
use crate::halide::HalideTypeTag;
use crate::shape::normalized;
use crate::shape::padded;
use crate::shape::lemma_from_sys;
use crate::shape::lemma_into_sys;
use crate::shape::AsTensorShape;
use crate::shape::TensorShape;
use crate::shape::DYNAMIC;
use crate::sys;
use crate::sys::MapType;
use crate::sys::unsigned;
use crate::sys::TensorPtr;

verus! {

/// The caller's memory that a borrowed handle stands on, if it stands on any.
pub enum Alias<'t, H> {
    /// None: the engine keeps the elements.
    Detached,
    /// Memory that the handle may read.
    Shared(&'t [H]),
    /// Memory that the handle may read and write.
    Exclusive(&'t mut [H]),
}

/// A handle on one buffer of the engine, with capability `T`.
///
/// A handle is not the buffer. An owned handle has to be handed back with
/// `destroy` for its buffer to be released; a borrowed one is dropped without
/// a trace.
pub struct Tensor<'t, T: TensorType> {
    tensor: TensorPtr,
    alias: Alias<'t, T::H>,
    __marker: PhantomData<T>,
}

impl<'t, T: TensorType> Tensor<'t, T> {
    /// The address of the buffer.
    pub closed spec fn ptr(&self) -> TensorPtr {
        self.tensor
    }

    /// The caller's memory that the handle stands on.
    pub closed spec fn alias(&self) -> Alias<'t, T::H> {
        self.alias
    }

    /// What the caller's memory holds, where the handle stands on any.
    pub open spec fn caller_memory(&self) -> Option<Seq<T::H>> {
        match self.alias() {
            Alias::Detached => None,
            Alias::Shared(s) => Some(s@),
            Alias::Exclusive(s) => Some(s@),
        }
    }

    /// What makes a handle usable with an engine: its buffer is live and
    /// lives where the capability says; the elements are kept by the engine,
    /// or in caller memory of the right length that the handle stands on; a
    /// handle that stands on caller memory does not own; and one that may
    /// write does not stand on memory it may only read.
    pub open spec fn wf(&self, engine: &Engine) -> bool {
        &&& engine.is_live(self.ptr())
        &&& engine@[self.ptr()].on_host == (T::location() == Location::Host)
        &&& match self.alias() {
            Alias::Detached => engine@[self.ptr()].cells is Some,
            Alias::Shared(s) => {
                &&& engine@[self.ptr()].cells is None
                &&& s@.len() == engine@[self.ptr()].count()
                &&& T::ownership() == Ownership::Borrowed
            },
            Alias::Exclusive(s) => {
                &&& engine@[self.ptr()].cells is None
                &&& s@.len() == engine@[self.ptr()].count()
                &&& T::ownership() != Ownership::Owned
            },
        }
    }

    /// Whether the buffer holds elements of the type that the handle claims.
    pub open spec fn type_matches(&self, engine: &Engine) -> bool {
        engine@[self.ptr()].kind == T::H::tag()
    }

    /// The elements of a host buffer, read as the type that the handle
    /// claims: what the caller's memory holds where the handle stands on it,
    /// what the engine holds otherwise.
    pub open spec fn contents(&self, engine: &Engine) -> Seq<T::H> {
        match self.caller_memory() {
            Some(s) => s,
            None => engine@[self.ptr()].typed::<T::H>().unwrap(),
        }
    }

    /// Once a handle is done with, so is the caller's memory it stood on:
    /// that memory then holds what the handle last saw in it.
    pub proof fn lemma_released(self)
        requires
            has_resolved(self),
        ensures
            self.alias() matches Alias::Exclusive(s) ==> has_resolved(s),
    {
    }

    /// Takes a buffer's address for a handle. Nothing is checked but that the
    /// address is not null: that a buffer lives there, and that the
    /// capability fits it, is the caller's word.
    pub fn from_ptr(tensor: TensorPtr) -> (handle: Self)
        requires
            !tensor.is_null(),
        ensures
            handle.ptr() == tensor,
            handle.alias() is Detached,
    {
        Tensor { tensor, alias: Alias::Detached, __marker: PhantomData }
    }

    /// Whether the handle is usable with this engine, found out at run time.
    pub fn usable(&self, engine: &Engine) -> (b: bool)
        requires
            engine.wf(),
        ensures
            b == self.wf(engine),
    {
        if !engine.contains(self.tensor) || engine.on_host(self.tensor) != T::host() {
            return false;
        }
        let kept = engine.keeps_elements(self.tensor);
        match &self.alias {
            Alias::Detached => kept,
            Alias::Shared(s) => !kept && s.len() == engine.element_size(self.tensor) && !T::mutable(),
            Alias::Exclusive(s) => !kept && s.len() == engine.element_size(self.tensor)
                && !T::owned(),
        }
    }

    /// The address of the buffer.
    pub fn as_ptr(&self) -> (p: TensorPtr)
        ensures
            p == self.ptr(),
    {
        self.tensor
    }

    /// Ends the handle. An owned handle releases its buffer; a borrowed one
    /// leaves the engine as it is.
    pub fn destroy(self, engine: &mut Engine)
        requires
            old(engine).wf(),
            T::ownership() == Ownership::Owned ==> old(engine).is_live(self.ptr()),
        ensures
            final(engine).wf(),
            final(engine).allocated() == old(engine).allocated(),
            T::ownership() == Ownership::Owned ==> {
                &&& final(engine)@ == old(engine)@.remove(self.ptr())
                &&& final(engine).live_count() == old(engine).live_count() - 1
            },
            T::ownership() != Ownership::Owned ==> {
                &&& final(engine)@ == old(engine)@
                &&& final(engine).live_count() == old(engine).live_count()
            },
    {
        if T::owned() {
            engine.destroy(self.tensor);
        }
    }

    /// The device's name for the buffer: zero in host memory, the buffer's
    /// address in device memory.
    pub fn device_id(&self, engine: &Engine) -> (id: u64)
        requires
            engine.wf(),
            engine.is_live(self.ptr()),
        ensures
            id == (if engine@[self.ptr()].on_host { 0 } else { self.ptr().addr as u64 }),
    {
        engine.device_id(self.tensor)
    }

    /// The shape of the buffer.
    pub fn shape(&self, engine: &Engine) -> (shape: TensorShape)
        requires
            engine.wf(),
            engine.is_live(self.ptr()),
        ensures
            shape@ == engine@[self.ptr()].dims(),
            shape.slots() == engine@[self.ptr()].shape.shape@,
    {
        let record = engine.shape(self.tensor);
        proof {
            lemma_from_sys(record);
        }
        TensorShape::from(record)
    }

    /// The rank of the buffer.
    pub fn dimensions(&self, engine: &Engine) -> (rank: usize)
        requires
            engine.wf(),
            engine.is_live(self.ptr()),
        ensures
            rank == engine@[self.ptr()].dims().len(),
    {
        engine.dimensions(self.tensor)
    }

    /// The width extent of the buffer, as an unsigned number.
    pub fn width(&self, engine: &Engine) -> (extent: u32)
        requires
            engine.wf(),
            engine.is_live(self.ptr()),
        ensures
            extent == unsigned(engine@[self.ptr()].width()),
    {
        #[verifier::truncate]
        (engine.width(self.tensor) as u32)
    }

    /// The height extent of the buffer, as an unsigned number.
    pub fn height(&self, engine: &Engine) -> (extent: u32)
        requires
            engine.wf(),
            engine.is_live(self.ptr()),
        ensures
            extent == unsigned(engine@[self.ptr()].height()),
    {
        #[verifier::truncate]
        (engine.height(self.tensor) as u32)
    }

    /// The channel extent of the buffer, as an unsigned number.
    pub fn channel(&self, engine: &Engine) -> (extent: u32)
        requires
            engine.wf(),
            engine.is_live(self.ptr()),
        ensures
            extent == unsigned(engine@[self.ptr()].channel()),
    {
        #[verifier::truncate]
        (engine.channel(self.tensor) as u32)
    }

    /// The batch extent of the buffer, as an unsigned number.
    pub fn batch(&self, engine: &Engine) -> (extent: u32)
        requires
            engine.wf(),
            engine.is_live(self.ptr()),
        ensures
            extent == unsigned(engine@[self.ptr()].batch()),
    {
        #[verifier::truncate]
        (engine.batch(self.tensor) as u32)
    }

    /// The size of the buffer in bytes.
    pub fn size(&self, engine: &Engine) -> (bytes: usize)
        requires
            engine.wf(),
            engine.is_live(self.ptr()),
        ensures
            bytes == engine@[self.ptr()].bytes(),
    {
        engine.size(self.tensor)
    }

    /// The number of elements of the buffer.
    pub fn element_size(&self, engine: &Engine) -> (count: usize)
        requires
            engine.wf(),
            engine.is_live(self.ptr()),
        ensures
            count == engine@[self.ptr()].count(),
    {
        engine.element_size(self.tensor)
    }

    /// Whether some dimension of the buffer is not yet resolved.
    pub fn is_dynamic(&self, engine: &Engine) -> (b: bool)
        requires
            engine.wf(),
            engine.is_live(self.ptr()),
        ensures
            b == engine@[self.ptr()].dims().contains(DYNAMIC),
    {
        self.shape(engine).has_dynamic()
    }

    /// The layout of the buffer.
    pub fn get_dimension_type(&self, engine: &Engine) -> (layout: DimensionType)
        requires
            engine.wf(),
            engine.is_live(self.ptr()),
        ensures
            layout == DimensionType::of_mnn_sys(engine@[self.ptr()].layout),
    {
        DimensionType::from(engine.get_dimension_type(self.tensor))
    }

    /// The descriptor of the element type that the buffer holds.
    pub fn get_type(&self, engine: &Engine) -> (kind: HalideTypeTag)
        requires
            engine.wf(),
            engine.is_live(self.ptr()),
        ensures
            kind == engine@[self.ptr()].kind,
    {
        engine.get_type(self.tensor)
    }

    /// Whether the buffer holds elements of type `H`.
    pub fn is_type_of<H: HalideType>(&self, engine: &Engine) -> (b: bool)
        requires
            engine.wf(),
            engine.is_live(self.ptr()),
        ensures
            b == (engine@[self.ptr()].kind == H::tag()),
    {
        let htc = halide_type_of::<H>();
        engine.is_type_of(self.tensor, htc)
    }
}

impl<'t, T: TensorType> Tensor<'t, T> {
    /// Read access to the elements of a host buffer whose type is the
    /// handle's.
    fn elements<'a>(&'a self, engine: &'a Engine) -> (s: &'a [T::H])
        requires
            engine.wf(),
            self.wf(engine),
            self.type_matches(engine),
            T::location() == Location::Host,
        ensures
            s@ == self.contents(engine),
    {
        proof {
            if let Some(c) = engine@[self.ptr()].cells {
                T::H::lemma_project(c);
            }
        }
        match &self.alias {
            Alias::Detached => match engine.host::<T::H>(self.tensor) {
                Some(s) => s,
                None => vstd::pervasive::unreached(),
            },
            Alias::Shared(s) => *s,
            Alias::Exclusive(s) => &**s,
        }
    }

    /// Write access to the elements of a host buffer whose type is the
    /// handle's. What the slice ends up holding is what the buffer, or the
    /// caller's memory that the handle stands on, ends up holding.
    fn elements_mut<'a>(&'a mut self, engine: &'a mut Engine) -> (s: &'a mut [T::H])
        requires
            old(engine).wf(),
            old(self).wf(old(engine)),
            old(self).type_matches(old(engine)),
            T::location() == Location::Host,
            is_mutable::<T>(),
        ensures
            s@ == old(self).contents(old(engine)),
            written(*old(self), *final(self), *old(engine), *final(engine), final(s)@),
            match old(self).alias() {
                Alias::Exclusive(a) => final(self).alias() matches Alias::Exclusive(b) && final(b)@
                    == final(a)@,
                _ => true,
            },
            final(s)@.len() == s@.len() ==> final(engine).wf() && final(self).wf(final(engine)),
    {
        proof {
            if let Some(c) = engine@[self.ptr()].cells {
                T::H::lemma_project(c);
            }
        }
        match &mut self.alias {
            Alias::Detached => match engine.host_mut::<T::H>(self.tensor) {
                Some(s) => s,
                None => vstd::pervasive::unreached(),
            },
            Alias::Shared(_) => vstd::pervasive::unreached(),
            Alias::Exclusive(s) => &mut **s,
        }
    }
}

/// How a write through a handle shows: `elements` are what the handle's host
/// buffer holds afterwards. Where the engine keeps the elements, that is the
/// one change to the engine; where the handle stands on caller memory, the
/// engine does not change and that memory holds them. The handle keeps its
/// address and its kind of memory.
pub open spec fn written<'t, T: TensorType>(
    before: Tensor<'t, T>,
    after: Tensor<'t, T>,
    engine_before: Engine,
    engine_after: Engine,
    elements: Seq<T::H>,
) -> bool {
    &&& after.ptr() == before.ptr()
    &&& engine_after.live_count() == engine_before.live_count()
    &&& engine_after.allocated() == engine_before.allocated()
    &&& match before.alias() {
        Alias::Detached => {
            &&& after.alias() is Detached
            &&& engine_after@ == engine_before@.insert(
                before.ptr(),
                engine_before@[before.ptr()].with_cells(T::H::inject(elements)),
            )
        },
        Alias::Shared(_) => {
            &&& after.alias() == before.alias()
            &&& engine_after@ == engine_before@
        },
        Alias::Exclusive(_) => {
            &&& after.alias() matches Alias::Exclusive(s) && s@ == elements
            &&& engine_after@ == engine_before@
        },
    }
}

impl<'t, T: HostTensorType> Tensor<'t, T> {
    /// The elements of the buffer, as a slice of the handle's element type.
    /// Before anything is read, the buffer's own descriptor is held against
    /// that type: where they differ, no slice is handed out.
    pub fn try_host<'a>(&'a self, engine: &'a Engine) -> (r: Result<&'a [T::H], ErrorKind>)
        requires
            engine.wf(),
            self.wf(engine),
        ensures
            match r {
                Ok(s) => self.type_matches(engine) && s@ == self.contents(engine),
                Err(e) => !self.type_matches(engine) && (e matches ErrorKind::HalideTypeMismatch {
                    got,
                } && got@ == T::H::spec_name()),
            },
    {
        proof {
            T::lemma_host();
        }
        if !self.is_type_of::<T::H>(engine) {
            return Err(ErrorKind::HalideTypeMismatch { got: T::H::name() });
        }
        Ok(self.elements(engine))
    }

    /// As `try_host`, for a caller that knows the buffer's type to be the
    /// handle's.
    pub fn host<'a>(&'a self, engine: &'a Engine) -> (s: &'a [T::H])
        requires
            engine.wf(),
            self.wf(engine),
            self.type_matches(engine),
        ensures
            s@ == self.contents(engine),
    {
        proof {
            T::lemma_host();
        }
        self.elements(engine)
    }
}

impl<'t, T: HostTensorType + MutableTensorType> Tensor<'t, T> {
    /// The elements of the buffer, as a slice of the handle's element type
    /// that can be written through. Before anything is handed out, the
    /// buffer's own descriptor is held against that type: where they differ,
    /// there is no slice, and nothing changes.
    pub fn try_host_mut<'a>(&'a mut self, engine: &'a mut Engine) -> (r: Result<
        &'a mut [T::H],
        ErrorKind,
    >)
        requires
            old(engine).wf(),
            old(self).wf(old(engine)),
        ensures
            match r {
                Ok(s) => {
                    &&& old(self).type_matches(old(engine))
                    &&& s@ == old(self).contents(old(engine))
                    &&& written(*old(self), *final(self), *old(engine), *final(engine), final(s)@)
                    &&& old(self).alias() matches Alias::Exclusive(a) ==> final(self).alias() matches Alias::Exclusive(
                        b,
                    ) && final(b)@ == final(a)@
                    &&& final(s)@.len() == s@.len() ==> final(engine).wf() && final(self).wf(
                        final(engine),
                    )
                },
                Err(e) => {
                    &&& !old(self).type_matches(old(engine))
                    &&& e matches ErrorKind::HalideTypeMismatch { got } && got@ == T::H::spec_name()
                    &&& *final(self) == *old(self)
                    &&& *final(engine) == *old(engine)
                },
            },
    {
        proof {
            T::lemma_host();
            T::lemma_mutable();
        }
        if !self.is_type_of::<T::H>(engine) {
            return Err(ErrorKind::HalideTypeMismatch { got: T::H::name() });
        }
        Ok(self.elements_mut(engine))
    }

    /// As `try_host_mut`, for a caller that knows the buffer's type to be the
    /// handle's.
    pub fn host_mut<'a>(&'a mut self, engine: &'a mut Engine) -> (s: &'a mut [T::H])
        requires
            old(engine).wf(),
            old(self).wf(old(engine)),
            old(self).type_matches(old(engine)),
        ensures
            s@ == old(self).contents(old(engine)),
            written(*old(self), *final(self), *old(engine), *final(engine), final(s)@),
            old(self).alias() matches Alias::Exclusive(a) ==> final(self).alias() matches Alias::Exclusive(
                b,
            ) && final(b)@ == final(a)@,
            final(s)@.len() == s@.len() ==> final(engine).wf() && final(self).wf(final(engine)),
    {
        proof {
            T::lemma_host();
            T::lemma_mutable();
        }
        self.elements_mut(engine)
    }
}

impl<'t, T: MutableTensorType> Tensor<'t, T> {
    /// Sets every element of the buffer to `value`.
    ///
    /// A host buffer is written in place. A device buffer cannot be written
    /// from here: a host buffer of the same shape and layout is created,
    /// filled and copied into it by the engine, and destroyed again.
    pub fn fill(&mut self, engine: &mut Engine, value: T::H)
        requires
            old(engine).wf(),
            old(self).wf(old(engine)),
            old(self).type_matches(old(engine)),
            T::location() == Location::Device ==> old(engine).has_room(),
        ensures
            final(engine).wf(),
            final(self).wf(final(engine)),
            final(self).type_matches(final(engine)),
            final(self).ptr() == old(self).ptr(),
            final(engine).live_count() == old(engine).live_count(),
            final(engine).allocated() == old(engine).allocated() + (if T::location()
                == Location::Device {
                1int
            } else {
                0int
            }),
            match old(self).alias() {
                Alias::Detached => {
                    &&& final(self).alias() is Detached
                    &&& final(engine)@ == old(engine)@.insert(
                        old(self).ptr(),
                        old(engine)@[old(self).ptr()].with_cells(
                            T::H::inject(uniform(old(engine)@[old(self).ptr()].count(), value)),
                        ),
                    )
                },
                Alias::Shared(_) => false,
                Alias::Exclusive(a) => {
                    &&& final(engine)@ == old(engine)@
                    &&& final(self).alias() matches Alias::Exclusive(b) && final(b)@ == final(a)@
                        && b@ == uniform(a@.len(), value)
                },
            },
    {
        proof {
            T::lemma_mutable();
            if let Some(c) = engine@[self.ptr()].cells {
                T::H::lemma_project(c);
                T::H::lemma_inject(T::H::project(c).unwrap());
            }
            T::H::lemma_inject(uniform(engine@[self.ptr()].count(), value));
        }
        if T::host() {
            let result = self.elements_mut(engine);
            fill_slice(result, value);
        } else {
            let ghost before = engine@;
            let shape = self.shape(engine);
            let dm_type = self.get_dimension_type(engine);
            proof {
                DimensionType::lemma_round_trip(dm_type, engine@[self.ptr()].layout);
            }
            let mut host: Tensor<'_, Host<T::H>> = Tensor::new(engine, shape, dm_type);
            proof {
                let blank = engine@[host.ptr()].cells.unwrap();
                T::H::lemma_project(blank);
                T::H::lemma_inject(T::H::project(blank).unwrap());
            }
            let staging = host.elements_mut(engine);
            fill_slice(staging, value);
            let status = engine.copy_from_host_tensor(self.tensor, host.tensor);
            assert(status != 0);
            host.destroy(engine);
            proof {
                assert(engine@ =~= before.insert(
                    self.ptr(),
                    before[self.ptr()].with_cells(
                        T::H::inject(uniform(before[self.ptr()].count(), value)),
                    ),
                ));
            }
        }
    }
}

impl<'t, T: DeviceTensorType> Tensor<'t, T> {
    /// Has the engine copy the elements of a host buffer into this handle's
    /// buffer. The engine copies where both buffers hold as many elements of
    /// the same type; where it does not, its status comes back in the error
    /// and nothing has changed.
    pub fn copy_from_host_tensor(&mut self, engine: &mut Engine, tensor: &Tensor<'_, Host<T::H>>) -> (r:
        Result<(), ErrorKind>)
        requires
            old(engine).wf(),
            old(self).wf(old(engine)),
            tensor.wf(old(engine)),
        ensures
            final(engine).wf(),
            *final(self) == *old(self),
            final(self).wf(final(engine)),
            tensor.wf(final(engine)),
            final(engine).live_count() == old(engine).live_count(),
            final(engine).allocated() == old(engine).allocated(),
            match r {
                Ok(_) => {
                    &&& copies(old(engine)@[old(self).ptr()], old(engine)@[tensor.ptr()])
                    &&& final(engine)@ == old(engine)@.insert(
                        old(self).ptr(),
                        old(engine)@[old(self).ptr()].with_cells(
                            old(engine)@[tensor.ptr()].cells.unwrap(),
                        ),
                    )
                },
                Err(e) => {
                    &&& !copies(old(engine)@[old(self).ptr()], old(engine)@[tensor.ptr()])
                    &&& e == ErrorKind::TensorCopyFailed(0)
                    &&& final(engine)@ == old(engine)@
                },
            },
    {
        proof {
            T::lemma_device();
        }
        let ret = engine.copy_from_host_tensor(self.tensor, tensor.tensor);
        if ret == 0 {
            return Err(ErrorKind::TensorCopyFailed(ret));
        }
        Ok(())
    }

    /// Has the engine copy the elements of this handle's buffer into a host
    /// buffer. The engine copies where both buffers hold as many elements of
    /// the same type; where it does not, its status comes back in the error
    /// and nothing has changed.
    pub fn copy_to_host_tensor(&self, engine: &mut Engine, tensor: &mut Tensor<'_, Host<T::H>>) -> (r:
        Result<(), ErrorKind>)
        requires
            old(engine).wf(),
            self.wf(old(engine)),
            old(tensor).wf(old(engine)),
        ensures
            final(engine).wf(),
            *final(tensor) == *old(tensor),
            self.wf(final(engine)),
            final(tensor).wf(final(engine)),
            final(engine).live_count() == old(engine).live_count(),
            final(engine).allocated() == old(engine).allocated(),
            match r {
                Ok(_) => {
                    &&& copies(old(engine)@[old(tensor).ptr()], old(engine)@[self.ptr()])
                    &&& final(engine)@ == old(engine)@.insert(
                        old(tensor).ptr(),
                        old(engine)@[old(tensor).ptr()].with_cells(
                            old(engine)@[self.ptr()].cells.unwrap(),
                        ),
                    )
                },
                Err(e) => {
                    &&& !copies(old(engine)@[old(tensor).ptr()], old(engine)@[self.ptr()])
                    &&& e == ErrorKind::TensorCopyFailed(0)
                    &&& final(engine)@ == old(engine)@
                },
            },
    {
        proof {
            T::lemma_device();
        }
        let ret = engine.copy_to_host_tensor(self.tensor, tensor.tensor);
        if ret == 0 {
            return Err(ErrorKind::TensorCopyFailed(ret));
        }
        Ok(())
    }

    /// Waits until the engine is done with what is pending on the buffer:
    /// with everything where `finish` is set, with what a mapping of the kind
    /// `map_type` needs where it is not.
    pub fn wait(&self, engine: &Engine, map_type: MapType, finish: bool)
        requires
            engine.wf(),
            engine.is_live(self.ptr()),
    {
        engine.wait(self.tensor, map_type, finish);
    }

    /// Creates a host buffer of this buffer's shape and layout, with elements
    /// of the handle's type, and hands out the handle that owns it. With
    /// `copy_data` the new buffer holds what this one holds; without, nothing
    /// is promised of its elements' values.
    pub fn create_host_tensor_from_device(&self, engine: &mut Engine, copy_data: bool) -> (out: Tensor<
        'static,
        Host<T::H>,
    >)
        requires
            old(engine).wf(),
            old(engine).has_room(),
            self.wf(old(engine)),
            fits::<T::H>(old(engine)@[self.ptr()].dims()),
            copy_data ==> self.type_matches(old(engine)),
        ensures
            final(engine).wf(),
            self.wf(final(engine)),
            out.wf(final(engine)),
            out.alias() is Detached,
            out.type_matches(final(engine)),
            out.ptr().addr == old(engine).allocated() + 1,
            !old(engine).is_live(out.ptr()),
            final(engine)@ == old(engine)@.insert(out.ptr(), final(engine)@[out.ptr()]),
            final(engine)@[out.ptr()].shape == old(engine)@[self.ptr()].shape,
            final(engine)@[out.ptr()].layout == old(engine)@[self.ptr()].layout,
            copy_data ==> final(engine)@[out.ptr()].cells == old(engine)@[self.ptr()].cells,
            final(engine).live_count() == old(engine).live_count() + 1,
            final(engine).allocated() == old(engine).allocated() + 1,
    {
        proof {
            T::lemma_device();
        }
        let ghost before = engine@;
        let shape = self.shape(engine);
        let dm_type = self.get_dimension_type(engine);
        proof {
            DimensionType::lemma_round_trip(dm_type, engine@[self.ptr()].layout);
        }
        let out: Tensor<'static, Host<T::H>> = Tensor::new(engine, shape, dm_type);
        proof {
            let made = engine@[out.ptr()].shape;
            let given = before[self.ptr()].shape;
            assert(made.shape =~= given.shape);
            assert(made@.len() == given@.len());
        }
        if copy_data {
            let status = engine.copy_to_host_tensor(self.tensor, out.tensor);
            assert(status != 0);
            proof {
                assert(engine@ =~= before.insert(out.ptr(), engine@[out.ptr()]));
            }
        }
        out
    }
}

impl<'t, T: HostTensorType> Tensor<'t, Ref<'t, T>> {
    /// A handle on caller memory that may be read through it. The engine
    /// keeps a description of the buffer: the given shape, the layout NCHW
    /// and the handle's element type. The elements stay where they are: the
    /// handle stands on the first of them, as many as the shape counts.
    pub fn borrowed<S: AsTensorShape>(engine: &mut Engine, shape: S, input: &'t [T::H]) -> (handle:
        Self)
        requires
            old(engine).wf(),
            old(engine).has_room(),
            fits::<T::H>(normalized(shape.dims())),
            sys::element_count(normalized(shape.dims())) <= input@.len(),
        ensures
            final(engine).wf(),
            handle.wf(final(engine)),
            handle.type_matches(final(engine)),
            handle.caller_memory() == Some(
                input@.subrange(0, sys::element_count(normalized(shape.dims())) as int),
            ),
            handle.ptr().addr == old(engine).allocated() + 1,
            !old(engine).is_live(handle.ptr()),
            final(engine)@ == old(engine)@.insert(handle.ptr(), final(engine)@[handle.ptr()]),
            final(engine)@[handle.ptr()].dims() == normalized(shape.dims()),
            final(engine)@[handle.ptr()].shape.shape@ == padded(normalized(shape.dims())),
            final(engine)@[handle.ptr()].layout == sys::DimensionType::Caffe,
            final(engine)@[handle.ptr()].cells is None,
            final(engine).live_count() == old(engine).live_count() + 1,
            final(engine).allocated() == old(engine).allocated() + 1,
    {
        proof {
            T::lemma_host();
        }
        let shape = shape.as_tensor_shape();
        let record = sys::TensorShape::from(shape);
        proof {
            lemma_into_sys(shape);
        }
        let count: usize = sys::count_elements(&record) as usize;
        let tensor = engine.create_with::<T::H>(record, DimensionType::Caffe.to_mnn_sys());
        let view = vstd::slice::slice_subrange(input, 0, count);
        Tensor { tensor, alias: Alias::Shared(view), __marker: PhantomData }
    }
}

impl<'t, T: HostTensorType> Tensor<'t, RefMut<'t, T>> {
    /// A handle on caller memory that may be read and written through it.
    /// The engine keeps a description of the buffer: the given shape, the
    /// layout NCHW and the handle's element type. The elements stay where
    /// they are: the handle stands on the first of them, as many as the shape
    /// counts, and what is written through the handle is written to them.
    pub fn borrowed_mut<S: AsTensorShape>(engine: &mut Engine, shape: S, input: &'t mut [T::H]) -> (handle:
        Self)
        requires
            old(engine).wf(),
            old(engine).has_room(),
            fits::<T::H>(normalized(shape.dims())),
            sys::element_count(normalized(shape.dims())) <= old(input)@.len(),
        ensures
            final(engine).wf(),
            handle.wf(final(engine)),
            handle.type_matches(final(engine)),
            handle.alias() matches Alias::Exclusive(s) && s@ == old(input)@.subrange(
                0,
                sys::element_count(normalized(shape.dims())) as int,
            ) && final(input)@ == final(s)@ + old(input)@.subrange(
                sys::element_count(normalized(shape.dims())) as int,
                old(input)@.len() as int,
            ),
            handle.ptr().addr == old(engine).allocated() + 1,
            !old(engine).is_live(handle.ptr()),
            final(engine)@ == old(engine)@.insert(handle.ptr(), final(engine)@[handle.ptr()]),
            final(engine)@[handle.ptr()].dims() == normalized(shape.dims()),
            final(engine)@[handle.ptr()].shape.shape@ == padded(normalized(shape.dims())),
            final(engine)@[handle.ptr()].layout == sys::DimensionType::Caffe,
            final(engine)@[handle.ptr()].cells is None,
            final(engine).live_count() == old(engine).live_count() + 1,
            final(engine).allocated() == old(engine).allocated() + 1,
    {
        proof {
            T::lemma_host();
        }
        let shape = shape.as_tensor_shape();
        let record = sys::TensorShape::from(shape);
        proof {
            lemma_into_sys(shape);
        }
        let count: usize = sys::count_elements(&record) as usize;
        let tensor = engine.create_with::<T::H>(record, DimensionType::Caffe.to_mnn_sys());
        let (view, _rest) = input.split_at_mut(count);
        Tensor { tensor, alias: Alias::Exclusive(view), __marker: PhantomData }
    }
}

impl<'t, H: HalideType> Tensor<'t, Host<H>> {
    /// A borrowed handle on the same buffer, for as long as this one is not
    /// touched.
    pub fn as_ref<'a>(&'a self) -> (handle: Tensor<'a, Ref<'a, Host<H>>>)
        ensures
            handle.ptr() == self.ptr(),
            handle.alias() is Detached,
            forall|engine: &Engine| self.wf(engine) ==> #[trigger] handle.wf(engine),
    {
        proof {
            self.lemma_owned_is_detached();
        }
        Tensor { tensor: self.tensor, alias: Alias::Detached, __marker: PhantomData }
    }
}

impl<'t, H: HalideType> Tensor<'t, Device<H>> {
    /// A borrowed handle on the same buffer, for as long as this one is not
    /// touched.
    pub fn as_ref<'a>(&'a self) -> (handle: Tensor<'a, Ref<'a, Device<H>>>)
        ensures
            handle.ptr() == self.ptr(),
            handle.alias() is Detached,
            forall|engine: &Engine| self.wf(engine) ==> #[trigger] handle.wf(engine),
    {
        proof {
            self.lemma_owned_is_detached();
        }
        Tensor { tensor: self.tensor, alias: Alias::Detached, __marker: PhantomData }
    }
}

impl<'t, T: OwnedTensorType> Tensor<'t, T> {
    /// A usable owned handle stands on no caller memory.
    pub proof fn lemma_owned_is_detached(&self)
        ensures
            forall|engine: &Engine| #[trigger] self.wf(engine) ==> self.alias() is Detached,
    {
        T::lemma_owned();
    }

    /// Creates a buffer of the given shape and layout, with elements of the
    /// handle's type, in the memory that the capability names, and hands out
    /// the handle that owns it. Nothing is promised of the elements' values.
    pub fn new<S: AsTensorShape>(engine: &mut Engine, shape: S, dm_type: DimensionType) -> (handle:
        Self)
        requires
            old(engine).wf(),
            old(engine).has_room(),
            fits::<T::H>(normalized(shape.dims())),
        ensures
            final(engine).wf(),
            handle.wf(final(engine)),
            handle.alias() is Detached,
            handle.type_matches(final(engine)),
            handle.ptr().addr == old(engine).allocated() + 1,
            !old(engine).is_live(handle.ptr()),
            final(engine)@ == old(engine)@.insert(handle.ptr(), final(engine)@[handle.ptr()]),
            final(engine)@[handle.ptr()].dims() == normalized(shape.dims()),
            final(engine)@[handle.ptr()].shape.shape@ == padded(normalized(shape.dims())),
            final(engine)@[handle.ptr()].layout == dm_type.as_mnn_sys(),
            final(engine).live_count() == old(engine).live_count() + 1,
            final(engine).allocated() == old(engine).allocated() + 1,
    {
        let shape = shape.as_tensor_shape();
        let record = sys::TensorShape::from(shape);
        proof {
            lemma_into_sys(shape);
        }
        let tensor = if T::device() {
            engine.create_device::<T::H>(record, dm_type.to_mnn_sys())
        } else {
            engine.create::<T::H>(record, dm_type.to_mnn_sys())
        };
        Tensor { tensor, alias: Alias::Detached, __marker: PhantomData }
    }

    /// Creates a buffer that is a copy of this handle's, with elements of its
    /// own, and hands out the handle that owns it.
    pub fn clone(&self, engine: &mut Engine) -> (handle: Self)
        requires
            old(engine).wf(),
            old(engine).has_room(),
            self.wf(old(engine)),
        ensures
            final(engine).wf(),
            handle.wf(final(engine)),
            self.wf(final(engine)),
            handle.alias() is Detached,
            handle.ptr().addr == old(engine).allocated() + 1,
            !old(engine).is_live(handle.ptr()),
            final(engine)@ == old(engine)@.insert(handle.ptr(), old(engine)@[self.ptr()]),
            final(engine).live_count() == old(engine).live_count() + 1,
            final(engine).allocated() == old(engine).allocated() + 1,
    {
        proof {
            self.lemma_owned_is_detached();
        }
        let tensor_ptr = engine.clone(self.tensor);
        Tensor { tensor: tensor_ptr, alias: Alias::Detached, __marker: PhantomData }
    }
}

} // verus!
