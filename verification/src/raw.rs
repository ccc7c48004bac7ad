//! Handles whose capability is not known yet.
use vstd::prelude::*;
use crate::capability::TensorType;
use crate::engine::Engine;
use crate::shape::lemma_from_sys;
use crate::shape::TensorShape;
use crate::sys::unsigned;
use crate::sys::TensorPtr;
use crate::tensor::Tensor;

verus! {

/// A handle on a buffer of which only the address is known. It owns the
/// buffer, and answers what can be asked of any buffer. To do more with the
/// buffer, the holder says which capability it has and gets a typed handle
/// in exchange.
pub struct RawTensor {
    inner: TensorPtr,
}

impl RawTensor {
    #[verifier::type_invariant]
    spec fn inv(self) -> bool {
        self.inner.addr != 0
    }

    /// The address of the buffer.
    pub closed spec fn ptr(&self) -> TensorPtr {
        self.inner
    }

    /// Takes a buffer's address for a handle. That a buffer lives there is
    /// the caller's word.
    pub fn from_ptr(inner: TensorPtr) -> (handle: RawTensor)
        requires
            !inner.is_null(),
        ensures
            handle.ptr() == inner,
    {
        RawTensor { inner }
    }

    /// Ends the handle and releases its buffer.
    pub fn destroy(self, engine: &mut Engine)
        requires
            old(engine).wf(),
            old(engine).is_live(self.ptr()),
        ensures
            final(engine).wf(),
            final(engine)@ == old(engine)@.remove(self.ptr()),
            final(engine).live_count() == old(engine).live_count() - 1,
            final(engine).allocated() == old(engine).allocated(),
    {
        engine.destroy(self.inner);
    }

    /// The shape of the buffer.
    pub fn shape(&self, engine: &Engine) -> (shape: TensorShape)
        requires
            engine.wf(),
            engine.is_live(self.ptr()),
        ensures
            shape@ == engine@[self.ptr()].dims(),
            shape.slots() == engine@[self.ptr()].shape.shape@,
    {
        let record = engine.shape(self.inner);
        proof {
            lemma_from_sys(record);
        }
        TensorShape::from(record)
    }

    /// The rank of the buffer.
    pub fn dimensions(&self, engine: &Engine) -> (rank: usize)
        requires
            engine.wf(),
            engine.is_live(self.ptr()),
        ensures
            rank == engine@[self.ptr()].dims().len(),
    {
        engine.dimensions(self.inner)
    }

    /// The width extent of the buffer, as an unsigned number.
    pub fn width(&self, engine: &Engine) -> (extent: u32)
        requires
            engine.wf(),
            engine.is_live(self.ptr()),
        ensures
            extent == unsigned(engine@[self.ptr()].width()),
    {
        #[verifier::truncate]
        (engine.width(self.inner) as u32)
    }

    /// The height extent of the buffer, as an unsigned number.
    pub fn height(&self, engine: &Engine) -> (extent: u32)
        requires
            engine.wf(),
            engine.is_live(self.ptr()),
        ensures
            extent == unsigned(engine@[self.ptr()].height()),
    {
        #[verifier::truncate]
        (engine.height(self.inner) as u32)
    }

    /// The channel extent of the buffer, as an unsigned number.
    pub fn channel(&self, engine: &Engine) -> (extent: u32)
        requires
            engine.wf(),
            engine.is_live(self.ptr()),
        ensures
            extent == unsigned(engine@[self.ptr()].channel()),
    {
        #[verifier::truncate]
        (engine.channel(self.inner) as u32)
    }

    /// The batch extent of the buffer, as an unsigned number.
    pub fn batch(&self, engine: &Engine) -> (extent: u32)
        requires
            engine.wf(),
            engine.is_live(self.ptr()),
        ensures
            extent == unsigned(engine@[self.ptr()].batch()),
    {
        #[verifier::truncate]
        (engine.batch(self.inner) as u32)
    }

    /// Exchanges the handle for a typed one on the same buffer. The
    /// capability is the caller's choice, and nothing holds it against the
    /// buffer: the typed handle is usable with an engine exactly when its
    /// own conditions are met there.
    pub fn to_concrete<'t, T: TensorType>(self) -> (handle: Tensor<'t, T>)
        ensures
            handle.ptr() == self.ptr(),
            handle.alias() is Detached,
    {
        proof {
            use_type_invariant(&self);
        }
        Tensor::from_ptr(self.inner)
    }
}

} // verus!
