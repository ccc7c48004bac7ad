//! Shapes of at most four dimensions, and the normalisation of dimension
//! sequences into them.
use vstd::prelude::*;
use vstd::slice::slice_subrange;
use crate::sys;

verus! {

/// The extent that marks a dimension as not yet resolved.
pub const DYNAMIC: i32 = -1;

/// What a dimension sequence becomes when it is fitted into four slots: its
/// first four entries if it is longer, itself otherwise.
pub open spec fn normalized(dims: Seq<i32>) -> Seq<i32> {
    if dims.len() > 4 {
        dims.subrange(0, 4)
    } else {
        dims
    }
}

/// The four stored slots for a dimension sequence: the entries that are kept,
/// then ones.
pub open spec fn padded(dims: Seq<i32>) -> Seq<i32> {
    Seq::new(4, |i: int| if i < dims.len() { dims[i] } else { 1i32 })
}

/// An ordered sequence of up to four signed extents. The extent `-1` marks a
/// dimension that is not yet resolved.
#[derive(Clone, Copy)]
pub struct TensorShape {
    shape: [i32; 4],
    size: usize,
}

impl View for TensorShape {
    type V = Seq<i32>;

    /// The extents that count: the first `rank()` slots.
    closed spec fn view(&self) -> Seq<i32> {
        self.shape@.subrange(0, self.rank() as int)
    }
}

impl TensorShape {
    #[verifier::type_invariant]
    spec fn inv(self) -> bool {
        &&& self.size <= 4
        &&& forall|i: int| self.size <= i < 4 ==> self.shape@[i] == 1i32
    }

    /// The rank, read so that it is at most four for every value.
    pub closed spec fn rank(&self) -> nat {
        if self.size <= 4 {
            self.size as nat
        } else {
            4
        }
    }

    /// The stored array of four slots, padding included.
    pub closed spec fn slot_array(&self) -> [i32; 4] {
        self.shape
    }

    /// All four stored slots as a sequence.
    pub open spec fn slots(&self) -> Seq<i32> {
        self.slot_array()@
    }

    /// The shape that the engine's record stands for: its four slots, and its
    /// count, capped at four.
    pub closed spec fn from_sys(value: sys::TensorShape) -> TensorShape {
        TensorShape {
            shape: [
                if value.size > 0 { value.shape@[0] } else { 1i32 },
                if value.size > 1 { value.shape@[1] } else { 1i32 },
                if value.size > 2 { value.shape@[2] } else { 1i32 },
                if value.size > 3 { value.shape@[3] } else { 1i32 },
            ],
            size: if value.size > 4 { 4 } else { value.size },
        }
    }

    /// This shape as the engine's record.
    pub closed spec fn to_sys(&self) -> sys::TensorShape {
        sys::TensorShape { shape: self.shape, size: self.size }
    }

    /// The view is the first `rank()` of the four slots.
    pub proof fn lemma_view_of_slots(&self)
        ensures
            self.rank() <= 4,
            self.slots().len() == 4,
            self@.len() == self.rank(),
            self@ == self.slots().subrange(0, self.rank() as int),
    {
    }

    /// Number of dimensions.
    pub fn len(&self) -> (n: usize)
        ensures
            n == self@.len(),
            n == self.rank(),
            n <= 4,
            self.slots() == padded(self@),
    {
        proof {
            use_type_invariant(self);
            assert(self.slots() =~= padded(self@));
        }
        self.size
    }

    /// The extents as a slice of exactly `len()` entries.
    pub fn as_slice(&self) -> (s: &[i32])
        ensures
            s@ == self@,
    {
        proof {
            use_type_invariant(self);
        }
        slice_subrange(self.shape.as_slice(), 0, self.size)
    }

    /// Replaces the extent at `index`; the rank and the other slots stay.
    pub fn set(&mut self, index: usize, value: i32)
        requires
            index < old(self)@.len(),
        ensures
            final(self)@ == old(self)@.update(index as int, value),
            final(self).slots() == old(self).slots().update(index as int, value),
    {
        proof {
            use_type_invariant(&*self);
        }
        let mut shape = self.shape;
        shape[index] = value;
        let size = self.size;
        *self = TensorShape { shape, size };
        assert(self@ =~= old(self)@.update(index as int, value));
        assert(self.slots() =~= old(self).slots().update(index as int, value));
    }

    /// Whether some extent is the dynamic marker.
    pub fn has_dynamic(&self) -> (b: bool)
        ensures
            b == self@.contains(DYNAMIC),
    {
        proof {
            use_type_invariant(self);
        }
        let mut i: usize = 0;
        while i < self.size
            invariant
                i <= self.size <= 4,
                forall|j: int| 0 <= j < i ==> self@[j] != DYNAMIC,
            decreases self.size - i,
        {
            if self.shape[i] == DYNAMIC {
                assert(self@[i as int] == DYNAMIC);
                return true;
            }
            i += 1;
        }
        false
    }
}

impl core::ops::Deref for TensorShape {
    type Target = [i32];

    fn deref(&self) -> (s: &[i32])
        ensures
            s@ == self@,
    {
        self.as_slice()
    }
}

impl core::ops::Index<usize> for TensorShape {
    type Output = i32;

    fn index(&self, index: usize) -> (r: &i32)
        ensures
            *r == self@[index as int],
    {
        proof {
            use_type_invariant(self);
        }
        &self.shape[index]
    }
}

impl vstd::std_specs::core::IndexSpecImpl<usize> for TensorShape {
    open spec fn index_req(&self, index: &usize) -> bool {
        *index < self@.len()
    }
}

/// Fits a dimension sequence into a shape. A sequence of more than four
/// entries keeps its first four; a shorter one is kept whole, and the slots
/// behind it are stored as ones without counting towards the rank.
pub fn normalize(dims: &[i32]) -> (s: TensorShape)
    ensures
        s@ == normalized(dims@),
        s.slots() == padded(normalized(dims@)),
{
    let len: usize = dims.len();
    let size: usize = if len > 4 { 4 } else { len };
    let mut shape: [i32; 4] = [1, 1, 1, 1];
    let mut i: usize = 0;
    while i < size
        invariant
            size <= 4,
            size <= dims@.len(),
            i <= size,
            forall|j: int| 0 <= j < i ==> shape@[j] == dims@[j],
            forall|j: int| i <= j < 4 ==> shape@[j] == 1i32,
        decreases size - i,
    {
        shape[i] = dims[i];
        i += 1;
    }
    let s = TensorShape { shape, size };
    assert(s@ =~= normalized(dims@));
    assert(s.slots() =~= padded(normalized(dims@)));
    s
}

/// Anything that stands for a sequence of dimensions. Whoever implements it
/// says which sequence, and hands out that sequence fitted into a shape.
pub trait AsTensorShape {
    /// The dimension sequence this value stands for.
    spec fn dims(&self) -> Seq<i32>;

    fn as_tensor_shape(&self) -> (s: TensorShape)
        ensures
            s@ == normalized(self.dims()),
    ;
}

impl AsTensorShape for [i32] {
    open spec fn dims(&self) -> Seq<i32> {
        self@
    }

    fn as_tensor_shape(&self) -> (s: TensorShape)
        ensures
            s.slots() == padded(normalized(self@)),
    {
        normalize(self)
    }
}

impl AsTensorShape for Vec<i32> {
    open spec fn dims(&self) -> Seq<i32> {
        self@
    }

    fn as_tensor_shape(&self) -> (s: TensorShape)
        ensures
            s.slots() == padded(normalized(self@)),
    {
        normalize(self.as_slice())
    }
}

impl<const N: usize> AsTensorShape for [i32; N] {
    open spec fn dims(&self) -> Seq<i32> {
        self@
    }

    fn as_tensor_shape(&self) -> (s: TensorShape)
        ensures
            s.slots() == padded(normalized(self@)),
    {
        normalize(self.as_slice())
    }
}

impl<T: AsTensorShape + ?Sized> AsTensorShape for &T {
    open spec fn dims(&self) -> Seq<i32> {
        (**self).dims()
    }

    fn as_tensor_shape(&self) -> (s: TensorShape) {
        (**self).as_tensor_shape()
    }
}

impl AsTensorShape for TensorShape {
    open spec fn dims(&self) -> Seq<i32> {
        self@
    }

    /// A shape normalises to itself.
    fn as_tensor_shape(&self) -> (s: TensorShape)
        ensures
            s == *self,
    {
        proof {
            use_type_invariant(self);
            self.lemma_view_of_slots();
        }
        *self
    }
}

impl From<sys::TensorShape> for TensorShape {
    /// Takes over the extents that count. A count above four is read as four,
    /// and the slots behind the count are stored as ones.
    fn from(value: sys::TensorShape) -> (s: TensorShape) {
        let size: usize = if value.size > 4 { 4 } else { value.size };
        let s = normalize(slice_subrange(value.shape.as_slice(), 0, size));
        proof {
            use_type_invariant(&s);
            assert(s.shape =~= TensorShape::from_sys(value).shape);
        }
        s
    }
}

impl vstd::std_specs::convert::FromSpecImpl<sys::TensorShape> for TensorShape {
    open spec fn obeys_from_spec() -> bool {
        true
    }

    open spec fn from_spec(value: sys::TensorShape) -> TensorShape {
        TensorShape::from_sys(value)
    }
}

/// What the conversion from the engine's record keeps: the extents that
/// count, of which there are at most four; the slots behind them become ones.
pub proof fn lemma_from_sys(value: sys::TensorShape)
    ensures
        TensorShape::from_sys(value)@ == value@,
        TensorShape::from_sys(value).slots() == padded(value@),
        TensorShape::from_sys(value).rank() == (if value.size > 4 { 4 } else { value.size as int }),
{
    assert(TensorShape::from_sys(value)@ =~= value@);
    assert(TensorShape::from_sys(value).slots() =~= padded(value@));
}

impl From<TensorShape> for sys::TensorShape {
    /// The record of a shape: its four slots and its rank.
    fn from(value: TensorShape) -> (s: sys::TensorShape)
        ensures
            s.size <= 4,
            s.shape@ == padded(s@),
    {
        proof {
            use_type_invariant(&value);
            assert(value.shape@ =~= padded(value.to_sys()@));
        }
        sys::TensorShape { shape: value.shape, size: value.size }
    }
}

impl vstd::std_specs::convert::FromSpecImpl<TensorShape> for sys::TensorShape {
    open spec fn obeys_from_spec() -> bool {
        true
    }

    open spec fn from_spec(value: TensorShape) -> sys::TensorShape {
        value.to_sys()
    }
}

/// What the conversion into the engine's record keeps: everything. A shape
/// of at most four dimensions with ones behind its extents comes back out of
/// its record as it was.
pub proof fn lemma_into_sys(value: TensorShape)
    ensures
        value.to_sys().shape == value.slot_array(),
        value.to_sys().size <= 4 ==> value.to_sys().size == value.rank(),
        value.to_sys().size <= 4 ==> value.to_sys()@ == value@,
        value.to_sys().size <= 4 && value.slots() == padded(value@) ==> TensorShape::from_sys(
            value.to_sys(),
        ) == value,
{
    if value.to_sys().size <= 4 {
        assert(value.to_sys()@ =~= value@);
        if value.slots() == padded(value@) {
            assert(forall|i: int| 0 <= i < 4 ==> value.slots()[i] == padded(value@)[i]);
            assert(TensorShape::from_sys(value.to_sys()).shape =~= value.shape);
        }
    }
}

} // verus!
