//! The engine: the store that owns every buffer a handle points to.
//!
//! A buffer is reached by its address alone. The engine hands an address out
//! when it creates a buffer and never hands the same one out again, so an
//! address whose buffer was destroyed stays dead.
use vstd::prelude::*;
use crate::halide::Elements;
use crate::halide::ElementsView;
use crate::halide::HalideType;
use crate::halide::HalideTypeTag;
use crate::shape::padded;
use crate::sys::count_elements;
use crate::sys::element_count;
use crate::sys::DimensionType;
use crate::sys::MapType;
use crate::sys::TensorPtr;
use crate::sys::TensorShape;

verus! {

/// Where the elements of a buffer are kept.
enum Storage {
    /// In memory of the engine's own.
    Resident(Elements),
    /// In memory of the caller's, which the engine does not hold.
    Caller,
}

/// One buffer as the engine keeps it.
struct Buffer {
    shape: TensorShape,
    layout: DimensionType,
    kind: HalideTypeTag,
    on_host: bool,
    storage: Storage,
}

/// What the engine knows of one buffer.
pub struct BufferView {
    /// The shape it was created with.
    pub shape: TensorShape,
    /// The layout it was created with.
    pub layout: DimensionType,
    /// The descriptor of its element type.
    pub kind: HalideTypeTag,
    /// Whether it lives in host memory.
    pub on_host: bool,
    /// Its elements, unless they are kept in the caller's memory.
    pub cells: Option<ElementsView>,
}

impl BufferView {
    /// The extents that count.
    pub open spec fn dims(&self) -> Seq<i32> {
        self.shape@
    }

    /// Number of elements.
    pub open spec fn count(&self) -> nat {
        element_count(self.shape@)
    }

    /// Size in bytes.
    pub open spec fn bytes(&self) -> nat {
        self.count() * self.kind.spec_bytes()
    }

    /// What holds of every buffer in an engine: its rank is at most four and
    /// the slots behind its extents hold ones, its sizes fit the machine,
    /// elements that the engine keeps are as many as the shape says and of
    /// the type the descriptor says, and elements that the caller keeps are
    /// in host memory.
    pub open spec fn wf(&self) -> bool {
        &&& well_formed(self.shape)
        &&& self.count() <= usize::MAX
        &&& self.bytes() <= usize::MAX
        &&& match self.cells {
            Some(c) => c.tag() == self.kind && c.len() == self.count(),
            None => self.on_host,
        }
    }

    /// The batch extent: the first slot.
    pub open spec fn batch(&self) -> i32 {
        self.shape.shape@[0]
    }

    /// The channel extent: the last slot where channels come last, the second
    /// otherwise.
    pub open spec fn channel(&self) -> i32 {
        if self.layout == DimensionType::Tensorflow {
            self.shape.shape@[3]
        } else {
            self.shape.shape@[1]
        }
    }

    /// The height extent: the second slot where channels come last, the third
    /// otherwise.
    pub open spec fn height(&self) -> i32 {
        if self.layout == DimensionType::Tensorflow {
            self.shape.shape@[1]
        } else {
            self.shape.shape@[2]
        }
    }

    /// The width extent: the third slot where channels come last, the fourth
    /// otherwise.
    pub open spec fn width(&self) -> i32 {
        if self.layout == DimensionType::Tensorflow {
            self.shape.shape@[2]
        } else {
            self.shape.shape@[3]
        }
    }

    /// The elements as elements of type `H`, where host code can reach them:
    /// the buffer is in host memory, the engine keeps its elements, and they
    /// are of type `H`.
    pub open spec fn typed<H: HalideType>(&self) -> Option<Seq<H>> {
        match self.cells {
            Some(c) => if self.on_host {
                H::project(c)
            } else {
                None
            },
            None => None,
        }
    }

    /// This buffer with other elements.
    pub open spec fn with_cells(&self, cells: ElementsView) -> BufferView {
        BufferView { cells: Some(cells), ..*self }
    }
}

/// Whether a shape record is one that the engine stores: at most four
/// dimensions, and ones in the slots behind them.
pub open spec fn well_formed(shape: TensorShape) -> bool {
    &&& shape.size <= 4
    &&& shape.shape@ == padded(shape@)
}

/// Whether a buffer of this shape and element type fits the machine.
pub open spec fn fits<H: HalideType>(dims: Seq<i32>) -> bool {
    &&& element_count(dims) <= usize::MAX
    &&& element_count(dims) * H::tag().spec_bytes() <= usize::MAX
}

/// Whether the engine copies the elements of `source` into `target`: both
/// keep their elements in the engine, and their element types and element
/// counts agree.
pub open spec fn copies(target: BufferView, source: BufferView) -> bool {
    &&& target.cells is Some
    &&& source.cells is Some
    &&& target.kind == source.kind
    &&& target.count() == source.count()
}

impl Buffer {
    /// What the engine knows of this buffer.
    closed spec fn model(&self) -> BufferView {
        BufferView {
            shape: self.shape,
            layout: self.layout,
            kind: self.kind,
            on_host: self.on_host,
            cells: match self.storage {
                Storage::Resident(e) => Some(e@),
                Storage::Caller => None,
            },
        }
    }
}

/// The store of buffers.
pub struct Engine {
    slots: Vec<Option<Buffer>>,
    live: usize,
}

impl View for Engine {
    type V = Map<TensorPtr, BufferView>;

    /// The live buffers, by address.
    closed spec fn view(&self) -> Map<TensorPtr, BufferView> {
        Map::new(
            |p: TensorPtr| 1 <= p.addr <= self.slots@.len() && self.slots@[p.addr - 1] is Some,
            |p: TensorPtr| self.slots@[p.addr - 1].unwrap().model(),
        )
    }
}

impl Engine {
    /// Number of addresses handed out so far.
    pub closed spec fn allocated(&self) -> nat {
        self.slots@.len()
    }

    /// The allocation counter: number of buffers that are live.
    pub closed spec fn live_count(&self) -> nat {
        self.live as nat
    }

    /// Whether a buffer lives at `p`.
    pub open spec fn is_live(&self, p: TensorPtr) -> bool {
        self@.dom().contains(p)
    }

    /// The engine's invariant: the allocation counter counts the live
    /// buffers, every live address is one that was handed out, and every live
    /// buffer is well formed.
    pub open spec fn wf(&self) -> bool {
        &&& self.live_count() == self@.dom().len()
        &&& self@.dom().finite()
        &&& forall|p: TensorPtr| #[trigger]
            self@.dom().contains(p) ==> 1 <= p.addr <= self.allocated() && self@[p].wf()
    }

    /// Whether another buffer can be created.
    pub open spec fn has_room(&self) -> bool {
        self.allocated() < usize::MAX
    }

    /// The address whose buffer is kept at a slot.
    proof fn lemma_slot(&self, i: int)
        requires
            0 <= i < self.slots@.len(),
        ensures
            self@.dom().contains(TensorPtr { addr: (i + 1) as usize }) == (self.slots@[i] is Some),
            self.slots@[i] is Some ==> self@[TensorPtr { addr: (i + 1) as usize }]
                == self.slots@[i].unwrap().model(),
    {
        assert(self.slots.len() == self.slots@.len());
    }

    /// An engine without buffers.
    pub fn new() -> (engine: Engine)
        ensures
            engine.wf(),
            engine@ == Map::<TensorPtr, BufferView>::empty(),
            engine.live_count() == 0,
            engine.allocated() == 0,
    {
        let engine = Engine { slots: Vec::new(), live: 0 };
        assert(engine@ =~= Map::<TensorPtr, BufferView>::empty());
        engine
    }

    /// The allocation counter: number of buffers that are live.
    pub fn count_live(&self) -> (n: usize)
        ensures
            n == self.live_count(),
            self.wf() ==> n == self@.dom().len(),
    {
        self.live
    }

    /// Whether a buffer lives at `p`.
    pub fn contains(&self, p: TensorPtr) -> (b: bool)
        ensures
            b == self.is_live(p),
    {
        p.addr >= 1 && p.addr <= self.slots.len() && self.slots[p.addr - 1].is_some()
    }

    /// Whether another buffer can be created.
    pub fn room(&self) -> (b: bool)
        ensures
            b == self.has_room(),
    {
        self.slots.len() < usize::MAX
    }

    /// Whether a buffer of this shape and element type fits the machine.
    pub fn check_fits<H: HalideType>(shape: &TensorShape) -> (b: bool)
        requires
            shape.size <= 4,
        ensures
            b == fits::<H>(shape@),
    {
        let n: u128 = count_elements(shape);
        let width: u128 = H::halide_type_of().bytes() as u128;
        let limit: u128 = usize::MAX as u128;
        if n > limit {
            return false;
        }
        assert(n * width <= 0xffff_ffff_ffff_ffff * 32) by (nonlinear_arith)
            requires
                n <= 0xffff_ffff_ffff_ffff,
                width <= 32,
        ;
        n * width <= limit
    }

    /// Puts a buffer into the store, at an address that was never used.
    fn insert(&mut self, buffer: Buffer) -> (p: TensorPtr)
        requires
            old(self).wf(),
            old(self).has_room(),
            buffer.model().wf(),
        ensures
            final(self).wf(),
            p.addr == old(self).allocated() + 1,
            !old(self)@.dom().contains(p),
            final(self)@ == old(self)@.insert(p, buffer.model()),
            final(self).live_count() == old(self).live_count() + 1,
            final(self).allocated() == old(self).allocated() + 1,
    {
        let ghost before = *self;
        let ghost model = buffer.model();
        let index: usize = self.slots.len();
        let p = TensorPtr { addr: index + 1 };
        assert(!before@.dom().contains(p));
        proof {
            assert(before@.dom().len() <= before.slots@.len()) by {
                before.lemma_live_bound();
            }
        }
        self.slots.push(Some(buffer));
        self.live = self.live + 1;
        proof {
            assert(self@ =~= before@.insert(p, model));
            assert(self@.dom() =~= before@.dom().insert(p));
        }
        p
    }

    /// The buffer at a live address.
    fn slot(&self, p: TensorPtr) -> (buffer: &Buffer)
        requires
            self.wf(),
            self.is_live(p),
        ensures
            buffer.model() == self@[p],
    {
        match &self.slots[p.addr - 1] {
            Some(buffer) => buffer,
            None => vstd::pervasive::unreached(),
        }
    }

    /// Creates a buffer in host memory, with elements of type `H` that the
    /// engine keeps. Nothing is promised of the elements' values.
    pub fn create<H: HalideType>(&mut self, shape: TensorShape, layout: DimensionType) -> (p: TensorPtr)
        requires
            old(self).wf(),
            old(self).has_room(),
            well_formed(shape),
            fits::<H>(shape@),
        ensures
            final(self).wf(),
            p.addr == old(self).allocated() + 1,
            !old(self).is_live(p),
            final(self)@ == old(self)@.insert(p, final(self)@[p]),
            final(self)@[p].shape == shape,
            final(self)@[p].layout == layout,
            final(self)@[p].kind == H::tag(),
            final(self)@[p].on_host,
            final(self)@[p].cells is Some,
            final(self).live_count() == old(self).live_count() + 1,
            final(self).allocated() == old(self).allocated() + 1,
    {
        let n: usize = count_elements(&shape) as usize;
        let buffer = Buffer {
            shape,
            layout,
            kind: H::halide_type_of(),
            on_host: true,
            storage: Storage::Resident(H::blank(n)),
        };
        self.insert(buffer)
    }

    /// Creates a buffer in device memory, with elements of type `H`. Nothing
    /// is promised of the elements' values.
    pub fn create_device<H: HalideType>(&mut self, shape: TensorShape, layout: DimensionType) -> (p:
        TensorPtr)
        requires
            old(self).wf(),
            old(self).has_room(),
            well_formed(shape),
            fits::<H>(shape@),
        ensures
            final(self).wf(),
            p.addr == old(self).allocated() + 1,
            !old(self).is_live(p),
            final(self)@ == old(self)@.insert(p, final(self)@[p]),
            final(self)@[p].shape == shape,
            final(self)@[p].layout == layout,
            final(self)@[p].kind == H::tag(),
            !final(self)@[p].on_host,
            final(self)@[p].cells is Some,
            final(self).live_count() == old(self).live_count() + 1,
            final(self).allocated() == old(self).allocated() + 1,
    {
        let n: usize = count_elements(&shape) as usize;
        let buffer = Buffer {
            shape,
            layout,
            kind: H::halide_type_of(),
            on_host: false,
            storage: Storage::Resident(H::blank(n)),
        };
        self.insert(buffer)
    }

    /// Creates a buffer in host memory whose elements stay in the caller's
    /// memory: the engine keeps the description only.
    pub fn create_with<H: HalideType>(&mut self, shape: TensorShape, layout: DimensionType) -> (p:
        TensorPtr)
        requires
            old(self).wf(),
            old(self).has_room(),
            well_formed(shape),
            fits::<H>(shape@),
        ensures
            final(self).wf(),
            p.addr == old(self).allocated() + 1,
            !old(self).is_live(p),
            final(self)@ == old(self)@.insert(
                p,
                BufferView { shape, layout, kind: H::tag(), on_host: true, cells: None },
            ),
            final(self).live_count() == old(self).live_count() + 1,
            final(self).allocated() == old(self).allocated() + 1,
    {
        let buffer = Buffer {
            shape,
            layout,
            kind: H::halide_type_of(),
            on_host: true,
            storage: Storage::Caller,
        };
        self.insert(buffer)
    }

    /// Releases the buffer at `p`. Every other buffer stays as it is.
    pub fn destroy(&mut self, p: TensorPtr)
        requires
            old(self).wf(),
            old(self).is_live(p),
        ensures
            final(self).wf(),
            final(self)@ == old(self)@.remove(p),
            final(self).live_count() == old(self).live_count() - 1,
            final(self).allocated() == old(self).allocated(),
    {
        let ghost before = *self;
        self.slots[p.addr - 1] = None;
        self.live = self.live - 1;
        proof {
            assert(self@ =~= before@.remove(p));
            assert(self@.dom() =~= before@.dom().remove(p));
        }
    }

    /// Creates a buffer that is a copy of the one at `p`, with elements of its
    /// own.
    pub fn clone(&mut self, p: TensorPtr) -> (q: TensorPtr)
        requires
            old(self).wf(),
            old(self).has_room(),
            old(self).is_live(p),
        ensures
            final(self).wf(),
            q.addr == old(self).allocated() + 1,
            !old(self).is_live(q),
            final(self)@ == old(self)@.insert(q, old(self)@[p]),
            final(self).live_count() == old(self).live_count() + 1,
            final(self).allocated() == old(self).allocated() + 1,
    {
        let source = self.slot(p);
        let storage = match &source.storage {
            Storage::Resident(elements) => Storage::Resident(elements.duplicate()),
            Storage::Caller => Storage::Caller,
        };
        let buffer = Buffer {
            shape: source.shape,
            layout: source.layout,
            kind: source.kind,
            on_host: source.on_host,
            storage,
        };
        self.insert(buffer)
    }

    /// The shape of the buffer at `p`.
    pub fn shape(&self, p: TensorPtr) -> (shape: TensorShape)
        requires
            self.wf(),
            self.is_live(p),
        ensures
            shape == self@[p].shape,
            well_formed(shape),
    {
        self.slot(p).shape
    }

    /// The rank of the buffer at `p`.
    pub fn dimensions(&self, p: TensorPtr) -> (rank: usize)
        requires
            self.wf(),
            self.is_live(p),
        ensures
            rank == self@[p].shape.size,
            rank == self@[p].dims().len(),
    {
        self.slot(p).shape.size
    }

    /// The batch extent of the buffer at `p`.
    pub fn batch(&self, p: TensorPtr) -> (extent: i32)
        requires
            self.wf(),
            self.is_live(p),
        ensures
            extent == self@[p].batch(),
    {
        self.slot(p).shape.shape[0]
    }

    /// The channel extent of the buffer at `p`.
    pub fn channel(&self, p: TensorPtr) -> (extent: i32)
        requires
            self.wf(),
            self.is_live(p),
        ensures
            extent == self@[p].channel(),
    {
        let buffer = self.slot(p);
        if buffer.layout == DimensionType::Tensorflow {
            buffer.shape.shape[3]
        } else {
            buffer.shape.shape[1]
        }
    }

    /// The height extent of the buffer at `p`.
    pub fn height(&self, p: TensorPtr) -> (extent: i32)
        requires
            self.wf(),
            self.is_live(p),
        ensures
            extent == self@[p].height(),
    {
        let buffer = self.slot(p);
        if buffer.layout == DimensionType::Tensorflow {
            buffer.shape.shape[1]
        } else {
            buffer.shape.shape[2]
        }
    }

    /// The width extent of the buffer at `p`.
    pub fn width(&self, p: TensorPtr) -> (extent: i32)
        requires
            self.wf(),
            self.is_live(p),
        ensures
            extent == self@[p].width(),
    {
        let buffer = self.slot(p);
        if buffer.layout == DimensionType::Tensorflow {
            buffer.shape.shape[2]
        } else {
            buffer.shape.shape[3]
        }
    }

    /// The number of elements of the buffer at `p`.
    pub fn element_size(&self, p: TensorPtr) -> (n: usize)
        requires
            self.wf(),
            self.is_live(p),
        ensures
            n == self@[p].count(),
    {
        count_elements(&self.slot(p).shape) as usize
    }

    /// The size in bytes of the buffer at `p`.
    pub fn size(&self, p: TensorPtr) -> (n: usize)
        requires
            self.wf(),
            self.is_live(p),
        ensures
            n == self@[p].bytes(),
    {
        let buffer = self.slot(p);
        let count: usize = count_elements(&buffer.shape) as usize;
        count * buffer.kind.bytes()
    }

    /// The layout of the buffer at `p`.
    pub fn get_dimension_type(&self, p: TensorPtr) -> (layout: DimensionType)
        requires
            self.wf(),
            self.is_live(p),
        ensures
            layout == self@[p].layout,
    {
        self.slot(p).layout
    }

    /// The descriptor of the element type of the buffer at `p`.
    pub fn get_type(&self, p: TensorPtr) -> (kind: HalideTypeTag)
        requires
            self.wf(),
            self.is_live(p),
        ensures
            kind == self@[p].kind,
    {
        self.slot(p).kind
    }

    /// Whether the buffer at `p` holds elements of the described type.
    pub fn is_type_of(&self, p: TensorPtr, kind: HalideTypeTag) -> (b: bool)
        requires
            self.wf(),
            self.is_live(p),
        ensures
            b == (self@[p].kind == kind),
    {
        self.slot(p).kind == kind
    }

    /// The device's name for the buffer at `p`: zero in host memory, the
    /// buffer's address in device memory.
    pub fn device_id(&self, p: TensorPtr) -> (id: u64)
        requires
            self.wf(),
            self.is_live(p),
        ensures
            id == (if self@[p].on_host { 0 } else { p.addr as u64 }),
    {
        if self.slot(p).on_host {
            0
        } else {
            p.addr as u64
        }
    }

    /// Whether the buffer at `p` lives in host memory.
    pub fn on_host(&self, p: TensorPtr) -> (b: bool)
        requires
            self.wf(),
            self.is_live(p),
        ensures
            b == self@[p].on_host,
    {
        self.slot(p).on_host
    }

    /// Whether the engine keeps the elements of the buffer at `p`, rather than
    /// the caller.
    pub fn keeps_elements(&self, p: TensorPtr) -> (b: bool)
        requires
            self.wf(),
            self.is_live(p),
        ensures
            b == (self@[p].cells is Some),
    {
        match &self.slot(p).storage {
            Storage::Resident(_) => true,
            Storage::Caller => false,
        }
    }

    /// Read access to the elements of the buffer at `p` as elements of type
    /// `H`: there is none where the buffer is in device memory, where the
    /// engine does not keep the elements, or where it keeps elements of
    /// another type.
    pub fn host<H: HalideType>(&self, p: TensorPtr) -> (r: Option<&[H]>)
        requires
            self.wf(),
            self.is_live(p),
        ensures
            match r {
                Some(s) => self@[p].typed::<H>() == Some(s@),
                None => self@[p].typed::<H>() is None,
            },
    {
        let buffer = self.slot(p);
        if !buffer.on_host {
            return None;
        }
        match &buffer.storage {
            Storage::Resident(elements) => H::slice_of(elements),
            Storage::Caller => None,
        }
    }

    /// Write access to the elements of the buffer at `p` as elements of type
    /// `H`. The buffer ends up holding what the slice ends up holding, and
    /// every other buffer stays as it is.
    pub fn host_mut<H: HalideType>(&mut self, p: TensorPtr) -> (r: Option<&mut [H]>)
        requires
            old(self).wf(),
            old(self).is_live(p),
        ensures
            final(self).live_count() == old(self).live_count(),
            final(self).allocated() == old(self).allocated(),
            match r {
                Some(s) => {
                    &&& old(self)@[p].typed::<H>() == Some(s@)
                    &&& final(self)@ == old(self)@.insert(
                        p,
                        old(self)@[p].with_cells(H::inject(final(s)@)),
                    )
                    &&& final(s)@.len() == s@.len() ==> final(self).wf()
                },
                None => {
                    &&& old(self)@[p].typed::<H>() is None
                    &&& final(self)@ == old(self)@
                    &&& final(self).wf()
                },
            },
    {
        proof {
            self.lemma_slot(p.addr - 1);
            if let Some(c) = self@[p].cells {
                H::lemma_project(c);
                if let Some(held) = H::project(c) {
                    H::lemma_inject(held);
                }
            }
        }
        let ghost before = *self;
        let r = match &mut self.slots[p.addr - 1] {
            Some(buffer) => if buffer.on_host {
                match &mut buffer.storage {
                    Storage::Resident(elements) => H::slice_of_mut(elements),
                    Storage::Caller => None,
                }
            } else {
                None
            },
            None => None,
        };
        proof {
            assert(after_borrow(*self)@.dom() =~= before@.dom());
            if r is None {
                assert(after_borrow(*self)@ =~= before@);
            }
        }
        r
    }

    /// Copies the elements of `source` into `target` where `copies` says so,
    /// and says whether it did.
    fn transfer(&mut self, target: TensorPtr, source: TensorPtr) -> (done: bool)
        requires
            old(self).wf(),
            old(self).is_live(target),
            old(self).is_live(source),
        ensures
            final(self).wf(),
            final(self).live_count() == old(self).live_count(),
            final(self).allocated() == old(self).allocated(),
            done == copies(old(self)@[target], old(self)@[source]),
            done ==> final(self)@ == old(self)@.insert(
                target,
                old(self)@[target].with_cells(old(self)@[source].cells.unwrap()),
            ),
            !done ==> final(self)@ == old(self)@,
    {
        let ghost before = *self;
        let from = self.slot(source);
        let to = self.slot(target);
        let same_kind = from.kind == to.kind;
        let same_count = count_elements(&from.shape) == count_elements(&to.shape);
        let to_resident = match &to.storage {
            Storage::Resident(_) => true,
            Storage::Caller => false,
        };
        let data = match &from.storage {
            Storage::Resident(elements) => {
                if same_kind && same_count && to_resident {
                    elements.duplicate()
                } else {
                    return false;
                }
            },
            Storage::Caller => {
                return false;
            },
        };
        proof {
            self.lemma_slot(target.addr - 1);
        }
        match &mut self.slots[target.addr - 1] {
            Some(buffer) => {
                buffer.storage = Storage::Resident(data);
            },
            None => {},
        }
        proof {
            assert(self@ =~= before@.insert(
                target,
                before@[target].with_cells(before@[source].cells.unwrap()),
            ));
            assert(self@.dom() =~= before@.dom());
        }
        true
    }

    /// Copies the elements of the host buffer at `source` into the buffer at
    /// `target`. The status is 1 where the engine copied and 0 where it did
    /// not: it copies when `source` is in host memory and `copies` holds.
    pub fn copy_from_host_tensor(&mut self, target: TensorPtr, source: TensorPtr) -> (status: i32)
        requires
            old(self).wf(),
            old(self).is_live(target),
            old(self).is_live(source),
        ensures
            final(self).wf(),
            final(self).live_count() == old(self).live_count(),
            final(self).allocated() == old(self).allocated(),
            status == (if old(self)@[source].on_host && copies(
                old(self)@[target],
                old(self)@[source],
            ) {
                1i32
            } else {
                0i32
            }),
            status != 0 ==> final(self)@ == old(self)@.insert(
                target,
                old(self)@[target].with_cells(old(self)@[source].cells.unwrap()),
            ),
            status == 0 ==> final(self)@ == old(self)@,
    {
        if self.slot(source).on_host && self.transfer(target, source) {
            1
        } else {
            0
        }
    }

    /// Copies the elements of the buffer at `source` into the host buffer at
    /// `target`. The status is 1 where the engine copied and 0 where it did
    /// not: it copies when `target` is in host memory and `copies` holds.
    pub fn copy_to_host_tensor(&mut self, source: TensorPtr, target: TensorPtr) -> (status: i32)
        requires
            old(self).wf(),
            old(self).is_live(target),
            old(self).is_live(source),
        ensures
            final(self).wf(),
            final(self).live_count() == old(self).live_count(),
            final(self).allocated() == old(self).allocated(),
            status == (if old(self)@[target].on_host && copies(
                old(self)@[target],
                old(self)@[source],
            ) {
                1i32
            } else {
                0i32
            }),
            status != 0 ==> final(self)@ == old(self)@.insert(
                target,
                old(self)@[target].with_cells(old(self)@[source].cells.unwrap()),
            ),
            status == 0 ==> final(self)@ == old(self)@,
    {
        if self.slot(target).on_host && self.transfer(target, source) {
            1
        } else {
            0
        }
    }

    /// Waits until what is pending on the buffer at `p` has been done. The
    /// engine finishes every operation before it returns from it, so there is
    /// never anything to wait for.
    pub fn wait(&self, p: TensorPtr, map_type: MapType, finish: bool)
        requires
            self.wf(),
            self.is_live(p),
    {
    }

    /// No more buffers are live than addresses were handed out.
    proof fn lemma_live_bound(&self)
        requires
            self.wf(),
        ensures
            self@.dom().len() <= self.slots@.len(),
    {
        let n = self.slots@.len();
        let all = Set::new(|p: TensorPtr| 1 <= p.addr <= n);
        Self::lemma_addresses(n);
        assert(self@.dom().subset_of(all));
        vstd::set_lib::lemma_len_subset(self@.dom(), all);
    }

    /// There are `n` addresses from one to `n`.
    proof fn lemma_addresses(n: nat)
        ensures
            Set::new(|p: TensorPtr| 1 <= p.addr <= n).finite(),
            Set::new(|p: TensorPtr| 1 <= p.addr <= n).len() <= n,
        decreases n,
    {
        let all = Set::new(|p: TensorPtr| 1 <= p.addr <= n);
        if n == 0 {
            assert(all =~= Set::<TensorPtr>::empty());
        } else {
            let fewer = Set::new(|p: TensorPtr| 1 <= p.addr <= (n - 1) as nat);
            Self::lemma_addresses((n - 1) as nat);
            if n <= usize::MAX {
                assert(all =~= fewer.insert(TensorPtr { addr: n as usize }));
            } else {
                assert(all =~= fewer);
            }
        }
    }
}

} // verus!
