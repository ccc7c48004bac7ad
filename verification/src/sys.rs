//! The plain records and enumerations that the engine itself speaks in.
use vstd::prelude::*;

verus! {

/// The engine's shape record: four extent slots, of which the first `size`
/// count.
#[derive(Clone, Copy)]
pub struct TensorShape {
    pub shape: [i32; 4],
    pub size: usize,
}

impl View for TensorShape {
    type V = Seq<i32>;

    /// The extents that count: the first `size` slots, at most four.
    open spec fn view(&self) -> Seq<i32> {
        self.shape@.subrange(0, if self.size > 4 { 4 } else { self.size as int })
    }
}

/// The engine's own enumeration of dimension layouts.
#[derive(Clone, Copy, Debug, PartialEq, Eq, Hash, Structural)]
pub enum DimensionType {
    Tensorflow,
    Caffe,
    CaffeC4,
}

/// What a wait on a device buffer is for.
#[derive(Clone, Copy, Debug, PartialEq, Eq, Hash, Structural)]
pub enum MapType {
    MapTensorWrite,
    MapTensorRead,
}

/// The engine's address of a buffer. Address zero is the null address: no
/// buffer ever lives there.
#[derive(Clone, Copy, Debug, PartialEq, Eq, Hash, Structural)]
pub struct TensorPtr {
    pub addr: usize,
}

impl TensorPtr {
    /// Whether this is the null address.
    pub open spec fn spec_is_null(&self) -> bool {
        self.addr == 0
    }

    /// The null address.
    pub fn null() -> (p: TensorPtr)
        ensures
            p.addr == 0,
    {
        TensorPtr { addr: 0 }
    }

    /// Whether this is the null address.
    #[verifier::when_used_as_spec(spec_is_null)]
    pub fn is_null(&self) -> (b: bool)
        ensures
            b == self.spec_is_null(),
    {
        self.addr == 0
    }
}

/// An extent as the unsigned number that the accessors of a handle give: the
/// extent itself, and for an extent below zero the number that has the same
/// thirty-two bits.
pub open spec fn unsigned(extent: i32) -> u32 {
    extent as u32
}

/// The unsigned number of an extent, in plain arithmetic.
pub proof fn lemma_unsigned(extent: i32)
    ensures
        extent >= 0 ==> unsigned(extent) == extent,
        extent < 0 ==> unsigned(extent) == extent + 0x1_0000_0000,
{
    assert(extent >= 0 ==> (extent as u32) as i64 == extent as i64) by (bit_vector);
    assert(extent < 0 ==> (extent as u32) as i64 == (extent as i64).wrapping_add(0x1_0000_0000i64))
        by (bit_vector);
}

/// The number of elements that the dimension at `i` contributes: its extent,
/// nothing for an extent below zero, and one where the sequence has no such
/// dimension.
pub open spec fn extent_at(dims: Seq<i32>, i: int) -> nat {
    if 0 <= i < dims.len() {
        if dims[i] < 0 {
            0
        } else {
            dims[i] as nat
        }
    } else {
        1
    }
}

/// The number of elements in a buffer of at most four dimensions: the product
/// of its extents. A buffer with an unresolved dimension has none.
pub open spec fn element_count(dims: Seq<i32>) -> nat {
    extent_at(dims, 0) * extent_at(dims, 1) * extent_at(dims, 2) * extent_at(dims, 3)
}

/// One factor of the element count.
fn extent(shape: &TensorShape, i: usize) -> (e: u128)
    requires
        shape.size <= 4,
        i < 4,
    ensures
        e == extent_at(shape@, i as int),
        e <= 0x7fff_ffff,
{
    if i < shape.size {
        let d: i32 = shape.shape[i];
        if d < 0 {
            0
        } else {
            d as u128
        }
    } else {
        1
    }
}

/// The number of elements in a buffer of this shape, computed without
/// overflow.
pub fn count_elements(shape: &TensorShape) -> (n: u128)
    requires
        shape.size <= 4,
    ensures
        n == element_count(shape@),
        n <= 0x7fff_ffff * 0x7fff_ffff * 0x7fff_ffff * 0x7fff_ffff,
{
    let a: u128 = extent(shape, 0);
    let b: u128 = extent(shape, 1);
    let c: u128 = extent(shape, 2);
    let d: u128 = extent(shape, 3);
    assert(a * b <= 0x7fff_ffff * 0x7fff_ffff) by (nonlinear_arith)
        requires
            a <= 0x7fff_ffff,
            b <= 0x7fff_ffff,
    ;
    let ab: u128 = a * b;
    assert(ab * c <= 0x7fff_ffff * 0x7fff_ffff * 0x7fff_ffff) by (nonlinear_arith)
        requires
            ab <= 0x7fff_ffff * 0x7fff_ffff,
            c <= 0x7fff_ffff,
    ;
    let abc: u128 = ab * c;
    assert(abc * d <= 0x7fff_ffff * 0x7fff_ffff * 0x7fff_ffff * 0x7fff_ffff) by (nonlinear_arith)
        requires
            abc <= 0x7fff_ffff * 0x7fff_ffff * 0x7fff_ffff,
            d <= 0x7fff_ffff,
    ;
    abc * d
}

} // verus!
