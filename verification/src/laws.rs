//! What holds of handles and buffers across operations.
use vstd::prelude::*;
use crate::capability::is_mutable;
use crate::capability::Location;
use crate::capability::Ownership;
use crate::capability::Ref;
use crate::capability::RefMut;
use crate::capability::TensorType;
use crate::engine::BufferView;
use crate::engine::Engine;
use crate::halide::uniform;
use crate::halide::HalideType;
use crate::shape::normalized;
use crate::sys::TensorPtr;
use crate::tensor::written;
use crate::tensor::Alias;
use crate::tensor::Tensor;

verus! {

/// A dimension sequence of more than four entries is fitted to its first
/// four; a shorter one is kept as it is; and fitting a second time changes
/// nothing.
pub proof fn law_normalized(dims: Seq<i32>)
    ensures
        dims.len() > 4 ==> normalized(dims).len() == 4 && forall|i: int|
            0 <= i < 4 ==> normalized(dims)[i] == dims[i],
        dims.len() <= 4 ==> normalized(dims) == dims,
        normalized(normalized(dims)) == normalized(dims),
{
}

/// Wrapping a capability in a borrow keeps its location and its element
/// type, and makes its ownership that of the borrow, whatever it was. What
/// owns or borrows mutably may write; what borrows immutably may not.
pub proof fn law_borrow_wraps<'t, T: TensorType>()
    ensures
        Ref::<'t, T>::location() == T::location(),
        RefMut::<'t, T>::location() == T::location(),
        Ref::<'t, T>::ownership() == Ownership::Borrowed,
        RefMut::<'t, T>::ownership() == Ownership::MutablyBorrowed,
        !is_mutable::<Ref<'t, T>>(),
        is_mutable::<RefMut<'t, T>>(),
        T::ownership() == Ownership::Owned ==> is_mutable::<T>(),
{
}

/// A handle that was made to stand on the first `count` elements of the
/// caller's memory exposes exactly those, whatever the engine holds; where
/// the shape counts as many elements as the memory has, it exposes the
/// memory as a whole.
pub proof fn law_borrowed_exposes_caller_memory<'t, T: TensorType>(
    handle: Tensor<'t, T>,
    engine: &Engine,
    memory: Seq<T::H>,
    count: nat,
)
    requires
        count <= memory.len(),
        handle.caller_memory() == Some(memory.subrange(0, count as int)),
    ensures
        handle.contents(engine) == memory.subrange(0, count as int),
        handle.contents(engine).len() == count,
        forall|i: int| 0 <= i < count ==> handle.contents(engine)[i] == memory[i],
        count == memory.len() ==> handle.contents(engine) == memory,
{
    if count == memory.len() {
        assert(memory.subrange(0, count as int) =~= memory);
    }
}

/// What is written through a handle that stands on caller memory is what
/// that memory holds once the handle is done with.
pub proof fn law_write_reaches_caller_memory<'t, T: TensorType>(
    first: Tensor<'t, T>,
    last: Tensor<'t, T>,
    elements: Seq<T::H>,
)
    requires
        first.alias() matches Alias::Exclusive(a) && last.alias() matches Alias::Exclusive(b)
            && final(b)@ == final(a)@ && b@ == elements,
        has_resolved(last),
    ensures
        first.alias() matches Alias::Exclusive(a) && final(a)@ == elements,
{
    last.lemma_released();
}

/// A host buffer that was filled with a value reads as that value, once for
/// each element that the shape counts.
pub proof fn law_filled_reads_uniform<'t, T: TensorType>(
    handle: Tensor<'t, T>,
    engine: &Engine,
    value: T::H,
)
    requires
        T::location() == Location::Host,
        handle.wf(engine),
        handle.alias() is Detached,
        engine@[handle.ptr()].cells == Some(
            T::H::inject(uniform(engine@[handle.ptr()].count(), value)),
        ),
    ensures
        handle.contents(engine).len() == engine@[handle.ptr()].count(),
        forall|i: int|
            0 <= i < engine@[handle.ptr()].count() ==> handle.contents(engine)[i] == value,
{
    T::H::lemma_inject(uniform(engine@[handle.ptr()].count(), value));
}

/// A device buffer that was filled and then copied to a host buffer reads
/// there as a host buffer of the same shape reads that was filled directly.
pub proof fn law_device_round_trip<H: HalideType>(
    device: BufferView,
    copy: BufferView,
    direct: BufferView,
    value: H,
)
    requires
        device.cells == Some(H::inject(uniform(device.count(), value))),
        copy.on_host && copy.shape == device.shape && copy.cells == device.cells,
        direct.on_host && direct.shape == device.shape && direct.cells == Some(
            H::inject(uniform(direct.count(), value)),
        ),
    ensures
        copy.typed::<H>() == direct.typed::<H>(),
        copy.typed::<H>() == Some(uniform(device.count(), value)),
{
    H::lemma_inject(uniform(device.count(), value));
}

/// A clone has storage of its own: what is written through the clone's
/// handle leaves the buffer it was cloned from as it was.
pub proof fn law_clone_is_independent<'t, T: TensorType>(
    source: TensorPtr,
    clone_before: Tensor<'t, T>,
    clone_after: Tensor<'t, T>,
    initial: Engine,
    cloned: Engine,
    modified: Engine,
    elements: Seq<T::H>,
)
    requires
        initial.is_live(source),
        !initial.is_live(clone_before.ptr()),
        cloned@ == initial@.insert(clone_before.ptr(), initial@[source]),
        written(clone_before, clone_after, cloned, modified, elements),
    ensures
        modified.is_live(source),
        modified@[source] == initial@[source],
        cloned@[clone_before.ptr()] == initial@[source],
{
}

/// Ending an owned handle on a live buffer takes exactly that buffer out of
/// the engine; ending a borrowed handle takes none. Here `after` is an
/// engine as `destroy` leaves it.
pub proof fn law_release_once<'t, T: TensorType>(handle: Tensor<'t, T>, before: Engine, after: Engine)
    requires
        before.wf(),
        after.wf(),
        before.is_live(handle.ptr()),
        T::ownership() == Ownership::Owned ==> after@ == before@.remove(handle.ptr()),
        T::ownership() != Ownership::Owned ==> after@ == before@,
    ensures
        T::ownership() == Ownership::Owned ==> {
            &&& !after.is_live(handle.ptr())
            &&& after.live_count() == before.live_count() - 1
            &&& forall|p: TensorPtr| p != handle.ptr() ==> (after.is_live(p) == before.is_live(p))
        },
        T::ownership() != Ownership::Owned ==> {
            &&& after.is_live(handle.ptr())
            &&& after.live_count() == before.live_count()
        },
{
}

/// The allocation counter stands at zero exactly when no buffer is live.
pub proof fn law_counter_at_zero(engine: Engine)
    requires
        engine.wf(),
    ensures
        engine.live_count() == 0 <==> engine@ =~= Map::<TensorPtr, BufferView>::empty(),
        engine.live_count() == 0 <==> forall|p: TensorPtr| !(#[trigger] engine@.dom().contains(p)),
{
    if engine.live_count() == 0 {
        assert forall|p: TensorPtr| !(#[trigger] engine@.dom().contains(p)) by {
            if engine@.dom().contains(p) {
                assert(engine@.dom().len() != 0);
            }
        }
        assert(engine@ =~= Map::<TensorPtr, BufferView>::empty());
    }
    if forall|p: TensorPtr| !(#[trigger] engine@.dom().contains(p)) {
        assert(engine@.dom() =~= Set::<TensorPtr>::empty());
    }
}

/// An engine never hands out an address twice: every address that is live,
/// or was, lies below the next one that it hands out.
pub proof fn law_address_stays_dead(engine: Engine, p: TensorPtr)
    requires
        engine.wf(),
        p.addr > engine.allocated(),
    ensures
        !engine.is_live(p),
{
}

} // verus!
