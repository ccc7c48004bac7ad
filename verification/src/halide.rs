//! Element types and their runtime descriptors, and the type-erased element
//! storage that a buffer holds.
use vstd::prelude::*;
use crate::seal::Sealed;

verus! {

/// The kind of scalar that a descriptor names.
#[derive(Clone, Copy, Debug, PartialEq, Eq, Hash, Structural)]
pub enum HalideTypeCode {
    Int,
    UInt,
    Float,
    Handle,
    BFloat,
}

/// The runtime descriptor of an element type: kind of scalar, bit width and
/// lane count. A buffer carries one, whatever the handle's static type says.
#[derive(Clone, Copy, Debug, PartialEq, Eq, Hash, Structural)]
pub struct HalideTypeTag {
    pub code: HalideTypeCode,
    pub bits: u8,
    pub lanes: u16,
}

impl HalideTypeTag {
    /// Bytes that one element takes: the bit width, rounded up to whole bytes.
    pub open spec fn spec_bytes(&self) -> nat {
        ((self.bits as int + 7) / 8) as nat
    }

    /// Bytes that one element takes.
    pub fn bytes(&self) -> (n: usize)
        ensures
            n == self.spec_bytes(),
            n <= 32,
    {
        let wide: usize = self.bits as usize;
        (wide + 7) / 8
    }
}

/// A floating-point element of 32 bits, held by its bits. Nothing here
/// computes with it: it is stored, copied and handed back.
#[derive(Clone, Copy, Debug, PartialEq, Eq, Hash, Structural)]
pub struct F32 {
    pub bits: u32,
}

/// A floating-point element of 64 bits, held by its bits. Nothing here
/// computes with it: it is stored, copied and handed back.
#[derive(Clone, Copy, Debug, PartialEq, Eq, Hash, Structural)]
pub struct F64 {
    pub bits: u64,
}

/// Elements of one type, held without that type showing in the holder's own
/// type.
pub enum Elements {
    Bool(Vec<bool>),
    U8(Vec<u8>),
    U16(Vec<u16>),
    U32(Vec<u32>),
    U64(Vec<u64>),
    I8(Vec<i8>),
    I16(Vec<i16>),
    I32(Vec<i32>),
    I64(Vec<i64>),
    F32(Vec<F32>),
    F64(Vec<F64>),
}

/// What an `Elements` value holds, as a sequence per element type.
pub enum ElementsView {
    Bool(Seq<bool>),
    U8(Seq<u8>),
    U16(Seq<u16>),
    U32(Seq<u32>),
    U64(Seq<u64>),
    I8(Seq<i8>),
    I16(Seq<i16>),
    I32(Seq<i32>),
    I64(Seq<i64>),
    F32(Seq<F32>),
    F64(Seq<F64>),
}

impl ElementsView {
    /// Number of elements.
    pub open spec fn len(&self) -> nat {
        match *self {
            ElementsView::Bool(s) => s.len(),
            ElementsView::U8(s) => s.len(),
            ElementsView::U16(s) => s.len(),
            ElementsView::U32(s) => s.len(),
            ElementsView::U64(s) => s.len(),
            ElementsView::I8(s) => s.len(),
            ElementsView::I16(s) => s.len(),
            ElementsView::I32(s) => s.len(),
            ElementsView::I64(s) => s.len(),
            ElementsView::F32(s) => s.len(),
            ElementsView::F64(s) => s.len(),
        }
    }

    /// The descriptor of the element type that is held.
    pub open spec fn tag(&self) -> HalideTypeTag {
        match *self {
            ElementsView::Bool(_) => HalideTypeTag { code: HalideTypeCode::UInt, bits: 1, lanes: 1 },
            ElementsView::U8(_) => HalideTypeTag { code: HalideTypeCode::UInt, bits: 8, lanes: 1 },
            ElementsView::U16(_) => HalideTypeTag { code: HalideTypeCode::UInt, bits: 16, lanes: 1 },
            ElementsView::U32(_) => HalideTypeTag { code: HalideTypeCode::UInt, bits: 32, lanes: 1 },
            ElementsView::U64(_) => HalideTypeTag { code: HalideTypeCode::UInt, bits: 64, lanes: 1 },
            ElementsView::I8(_) => HalideTypeTag { code: HalideTypeCode::Int, bits: 8, lanes: 1 },
            ElementsView::I16(_) => HalideTypeTag { code: HalideTypeCode::Int, bits: 16, lanes: 1 },
            ElementsView::I32(_) => HalideTypeTag { code: HalideTypeCode::Int, bits: 32, lanes: 1 },
            ElementsView::I64(_) => HalideTypeTag { code: HalideTypeCode::Int, bits: 64, lanes: 1 },
            ElementsView::F32(_) => HalideTypeTag { code: HalideTypeCode::Float, bits: 32, lanes: 1 },
            ElementsView::F64(_) => HalideTypeTag { code: HalideTypeCode::Float, bits: 64, lanes: 1 },
        }
    }
}

impl View for Elements {
    type V = ElementsView;

    open spec fn view(&self) -> ElementsView {
        match *self {
            Elements::Bool(v) => ElementsView::Bool(v@),
            Elements::U8(v) => ElementsView::U8(v@),
            Elements::U16(v) => ElementsView::U16(v@),
            Elements::U32(v) => ElementsView::U32(v@),
            Elements::U64(v) => ElementsView::U64(v@),
            Elements::I8(v) => ElementsView::I8(v@),
            Elements::I16(v) => ElementsView::I16(v@),
            Elements::I32(v) => ElementsView::I32(v@),
            Elements::I64(v) => ElementsView::I64(v@),
            Elements::F32(v) => ElementsView::F32(v@),
            Elements::F64(v) => ElementsView::F64(v@),
        }
    }
}

/// The sequence of `n` elements that are all `value`.
pub open spec fn uniform<E>(n: nat, value: E) -> Seq<E> {
    Seq::new(n, |i: int| value)
}

/// An element-for-element copy of a vector.
pub fn copy_of<E: Copy>(source: &Vec<E>) -> (copy: Vec<E>)
    ensures
        copy@ == source@,
{
    let n: usize = source.len();
    let mut copy: Vec<E> = Vec::with_capacity(n);
    let mut i: usize = 0;
    while i < n
        invariant
            n == source@.len(),
            i <= n,
            copy@ == source@.subrange(0, i as int),
        decreases n - i,
    {
        copy.push(source[i]);
        i += 1;
        assert(copy@ =~= source@.subrange(0, i as int));
    }
    assert(copy@ =~= source@);
    copy
}

/// A vector of `n` elements, each equal to `value`.
pub fn repeated<E: Copy>(n: usize, value: E) -> (v: Vec<E>)
    ensures
        v@ == uniform(n as nat, value),
{
    let mut v: Vec<E> = Vec::with_capacity(n);
    let mut i: usize = 0;
    while i < n
        invariant
            i <= n,
            v@ == uniform(i as nat, value),
        decreases n - i,
    {
        v.push(value);
        i += 1;
        assert(v@ =~= uniform(i as nat, value));
    }
    v
}

/// Sets every element of a slice to `value`.
pub fn fill_slice<E: Copy>(slice: &mut [E], value: E)
    ensures
        final(slice)@ == uniform(old(slice)@.len(), value),
{
    let n: usize = slice.len();
    let mut i: usize = 0;
    while i < n
        invariant
            n == slice@.len(),
            slice@.len() == old(slice)@.len(),
            i <= n,
            forall|j: int| 0 <= j < i ==> slice@[j] == value,
        decreases n - i,
    {
        slice[i] = value;
        i += 1;
    }
    assert(slice@ =~= uniform(old(slice)@.len(), value));
}

impl Elements {
    /// A copy with storage of its own.
    pub fn duplicate(&self) -> (copy: Elements)
        ensures
            copy@ == self@,
    {
        match self {
            Elements::Bool(v) => Elements::Bool(copy_of(v)),
            Elements::U8(v) => Elements::U8(copy_of(v)),
            Elements::U16(v) => Elements::U16(copy_of(v)),
            Elements::U32(v) => Elements::U32(copy_of(v)),
            Elements::U64(v) => Elements::U64(copy_of(v)),
            Elements::I8(v) => Elements::I8(copy_of(v)),
            Elements::I16(v) => Elements::I16(copy_of(v)),
            Elements::I32(v) => Elements::I32(copy_of(v)),
            Elements::I64(v) => Elements::I64(copy_of(v)),
            Elements::F32(v) => Elements::F32(copy_of(v)),
            Elements::F64(v) => Elements::F64(copy_of(v)),
        }
    }
}

/// A scalar type that a buffer can hold. Each one has a fixed descriptor, and
/// knows how to find its own elements inside type-erased storage.
pub trait HalideType: Copy + Sized + Sealed {
    /// The descriptor of this type.
    spec fn tag() -> HalideTypeTag;

    /// The type's name as it is reported in a mismatch.
    spec fn spec_name() -> Seq<char>;

    /// The elements of this type that `elements` holds, if it holds this type.
    spec fn project(elements: ElementsView) -> Option<Seq<Self>>;

    /// Storage that holds exactly `elements`.
    spec fn inject(elements: Seq<Self>) -> ElementsView;

    /// Storing and then reading gives back what was stored.
    proof fn lemma_inject(elements: Seq<Self>)
        ensures
            Self::project(Self::inject(elements)) == Some(elements),
            Self::inject(elements).tag() == Self::tag(),
            Self::inject(elements).len() == elements.len(),
    ;

    /// Storage holds this type exactly when its descriptor is this type's,
    /// and then it is the storage of what is read from it.
    proof fn lemma_project(elements: ElementsView)
        ensures
            Self::project(elements) is Some <==> elements.tag() == Self::tag(),
            Self::project(elements) matches Some(s) ==> Self::inject(s) == elements,
    ;

    /// The descriptor of this type.
    fn halide_type_of() -> (t: HalideTypeTag)
        ensures
            t == Self::tag(),
    ;

    /// The type's name as it is reported in a mismatch.
    fn name() -> (s: &'static str)
        ensures
            s@ == Self::spec_name(),
    ;

    /// Fresh storage for `n` elements of this type. Nothing is promised of
    /// their values.
    fn blank(n: usize) -> (e: Elements)
        ensures
            e@.tag() == Self::tag(),
            e@.len() == n,
    ;

    /// Read access to the elements, if the storage holds this type.
    fn slice_of(elements: &Elements) -> (r: Option<&[Self]>)
        ensures
            match r {
                Some(s) => Self::project(elements@) == Some(s@),
                None => Self::project(elements@) is None,
            },
    ;

    /// Write access to the elements, if the storage holds this type. The
    /// storage ends up holding what the slice ends up holding.
    fn slice_of_mut(elements: &mut Elements) -> (r: Option<&mut [Self]>)
        ensures
            match r {
                Some(s) => Self::project(old(elements)@) == Some(s@)
                    && final(elements)@ == Self::inject(final(s)@)
                    && final(elements)@.tag() == Self::tag()
                    && final(elements)@.len() == final(s)@.len(),
                None => Self::project(old(elements)@) is None && final(elements)@ == old(elements)@,
            },
    ;
}

/// The descriptor of the element type `H`.
pub fn halide_type_of<H: HalideType>() -> (t: HalideTypeTag)
    ensures
        t == H::tag(),
{
    H::halide_type_of()
}

impl Sealed for bool {
}

impl HalideType for bool {
    open spec fn tag() -> HalideTypeTag {
        HalideTypeTag { code: HalideTypeCode::UInt, bits: 1, lanes: 1 }
    }

    open spec fn spec_name() -> Seq<char> {
        "bool"@
    }

    open spec fn project(elements: ElementsView) -> Option<Seq<bool>> {
        match elements {
            ElementsView::Bool(s) => Some(s),
            _ => None,
        }
    }

    open spec fn inject(elements: Seq<bool>) -> ElementsView {
        ElementsView::Bool(elements)
    }

    proof fn lemma_inject(elements: Seq<bool>) {
    }

    proof fn lemma_project(elements: ElementsView) {
    }

    fn halide_type_of() -> (t: HalideTypeTag) {
        HalideTypeTag { code: HalideTypeCode::UInt, bits: 1, lanes: 1 }
    }

    fn name() -> (s: &'static str) {
        "bool"
    }

    fn blank(n: usize) -> (e: Elements) {
        Elements::Bool(repeated(n, false))
    }

    fn slice_of(elements: &Elements) -> (r: Option<&[bool]>) {
        match elements {
            Elements::Bool(v) => Some(v.as_slice()),
            _ => None,
        }
    }

    fn slice_of_mut(elements: &mut Elements) -> (r: Option<&mut [bool]>) {
        match elements {
            Elements::Bool(v) => Some(v.as_mut_slice()),
            _ => None,
        }
    }
}

impl Sealed for u8 {
}

impl HalideType for u8 {
    open spec fn tag() -> HalideTypeTag {
        HalideTypeTag { code: HalideTypeCode::UInt, bits: 8, lanes: 1 }
    }

    open spec fn spec_name() -> Seq<char> {
        "u8"@
    }

    open spec fn project(elements: ElementsView) -> Option<Seq<u8>> {
        match elements {
            ElementsView::U8(s) => Some(s),
            _ => None,
        }
    }

    open spec fn inject(elements: Seq<u8>) -> ElementsView {
        ElementsView::U8(elements)
    }

    proof fn lemma_inject(elements: Seq<u8>) {
    }

    proof fn lemma_project(elements: ElementsView) {
    }

    fn halide_type_of() -> (t: HalideTypeTag) {
        HalideTypeTag { code: HalideTypeCode::UInt, bits: 8, lanes: 1 }
    }

    fn name() -> (s: &'static str) {
        "u8"
    }

    fn blank(n: usize) -> (e: Elements) {
        Elements::U8(repeated(n, 0))
    }

    fn slice_of(elements: &Elements) -> (r: Option<&[u8]>) {
        match elements {
            Elements::U8(v) => Some(v.as_slice()),
            _ => None,
        }
    }

    fn slice_of_mut(elements: &mut Elements) -> (r: Option<&mut [u8]>) {
        match elements {
            Elements::U8(v) => Some(v.as_mut_slice()),
            _ => None,
        }
    }
}

impl Sealed for u16 {
}

impl HalideType for u16 {
    open spec fn tag() -> HalideTypeTag {
        HalideTypeTag { code: HalideTypeCode::UInt, bits: 16, lanes: 1 }
    }

    open spec fn spec_name() -> Seq<char> {
        "u16"@
    }

    open spec fn project(elements: ElementsView) -> Option<Seq<u16>> {
        match elements {
            ElementsView::U16(s) => Some(s),
            _ => None,
        }
    }

    open spec fn inject(elements: Seq<u16>) -> ElementsView {
        ElementsView::U16(elements)
    }

    proof fn lemma_inject(elements: Seq<u16>) {
    }

    proof fn lemma_project(elements: ElementsView) {
    }

    fn halide_type_of() -> (t: HalideTypeTag) {
        HalideTypeTag { code: HalideTypeCode::UInt, bits: 16, lanes: 1 }
    }

    fn name() -> (s: &'static str) {
        "u16"
    }

    fn blank(n: usize) -> (e: Elements) {
        Elements::U16(repeated(n, 0))
    }

    fn slice_of(elements: &Elements) -> (r: Option<&[u16]>) {
        match elements {
            Elements::U16(v) => Some(v.as_slice()),
            _ => None,
        }
    }

    fn slice_of_mut(elements: &mut Elements) -> (r: Option<&mut [u16]>) {
        match elements {
            Elements::U16(v) => Some(v.as_mut_slice()),
            _ => None,
        }
    }
}

impl Sealed for u32 {
}

impl HalideType for u32 {
    open spec fn tag() -> HalideTypeTag {
        HalideTypeTag { code: HalideTypeCode::UInt, bits: 32, lanes: 1 }
    }

    open spec fn spec_name() -> Seq<char> {
        "u32"@
    }

    open spec fn project(elements: ElementsView) -> Option<Seq<u32>> {
        match elements {
            ElementsView::U32(s) => Some(s),
            _ => None,
        }
    }

    open spec fn inject(elements: Seq<u32>) -> ElementsView {
        ElementsView::U32(elements)
    }

    proof fn lemma_inject(elements: Seq<u32>) {
    }

    proof fn lemma_project(elements: ElementsView) {
    }

    fn halide_type_of() -> (t: HalideTypeTag) {
        HalideTypeTag { code: HalideTypeCode::UInt, bits: 32, lanes: 1 }
    }

    fn name() -> (s: &'static str) {
        "u32"
    }

    fn blank(n: usize) -> (e: Elements) {
        Elements::U32(repeated(n, 0))
    }

    fn slice_of(elements: &Elements) -> (r: Option<&[u32]>) {
        match elements {
            Elements::U32(v) => Some(v.as_slice()),
            _ => None,
        }
    }

    fn slice_of_mut(elements: &mut Elements) -> (r: Option<&mut [u32]>) {
        match elements {
            Elements::U32(v) => Some(v.as_mut_slice()),
            _ => None,
        }
    }
}

impl Sealed for u64 {
}

impl HalideType for u64 {
    open spec fn tag() -> HalideTypeTag {
        HalideTypeTag { code: HalideTypeCode::UInt, bits: 64, lanes: 1 }
    }

    open spec fn spec_name() -> Seq<char> {
        "u64"@
    }

    open spec fn project(elements: ElementsView) -> Option<Seq<u64>> {
        match elements {
            ElementsView::U64(s) => Some(s),
            _ => None,
        }
    }

    open spec fn inject(elements: Seq<u64>) -> ElementsView {
        ElementsView::U64(elements)
    }

    proof fn lemma_inject(elements: Seq<u64>) {
    }

    proof fn lemma_project(elements: ElementsView) {
    }

    fn halide_type_of() -> (t: HalideTypeTag) {
        HalideTypeTag { code: HalideTypeCode::UInt, bits: 64, lanes: 1 }
    }

    fn name() -> (s: &'static str) {
        "u64"
    }

    fn blank(n: usize) -> (e: Elements) {
        Elements::U64(repeated(n, 0))
    }

    fn slice_of(elements: &Elements) -> (r: Option<&[u64]>) {
        match elements {
            Elements::U64(v) => Some(v.as_slice()),
            _ => None,
        }
    }

    fn slice_of_mut(elements: &mut Elements) -> (r: Option<&mut [u64]>) {
        match elements {
            Elements::U64(v) => Some(v.as_mut_slice()),
            _ => None,
        }
    }
}

impl Sealed for i8 {
}

impl HalideType for i8 {
    open spec fn tag() -> HalideTypeTag {
        HalideTypeTag { code: HalideTypeCode::Int, bits: 8, lanes: 1 }
    }

    open spec fn spec_name() -> Seq<char> {
        "i8"@
    }

    open spec fn project(elements: ElementsView) -> Option<Seq<i8>> {
        match elements {
            ElementsView::I8(s) => Some(s),
            _ => None,
        }
    }

    open spec fn inject(elements: Seq<i8>) -> ElementsView {
        ElementsView::I8(elements)
    }

    proof fn lemma_inject(elements: Seq<i8>) {
    }

    proof fn lemma_project(elements: ElementsView) {
    }

    fn halide_type_of() -> (t: HalideTypeTag) {
        HalideTypeTag { code: HalideTypeCode::Int, bits: 8, lanes: 1 }
    }

    fn name() -> (s: &'static str) {
        "i8"
    }

    fn blank(n: usize) -> (e: Elements) {
        Elements::I8(repeated(n, 0))
    }

    fn slice_of(elements: &Elements) -> (r: Option<&[i8]>) {
        match elements {
            Elements::I8(v) => Some(v.as_slice()),
            _ => None,
        }
    }

    fn slice_of_mut(elements: &mut Elements) -> (r: Option<&mut [i8]>) {
        match elements {
            Elements::I8(v) => Some(v.as_mut_slice()),
            _ => None,
        }
    }
}

impl Sealed for i16 {
}

impl HalideType for i16 {
    open spec fn tag() -> HalideTypeTag {
        HalideTypeTag { code: HalideTypeCode::Int, bits: 16, lanes: 1 }
    }

    open spec fn spec_name() -> Seq<char> {
        "i16"@
    }

    open spec fn project(elements: ElementsView) -> Option<Seq<i16>> {
        match elements {
            ElementsView::I16(s) => Some(s),
            _ => None,
        }
    }

    open spec fn inject(elements: Seq<i16>) -> ElementsView {
        ElementsView::I16(elements)
    }

    proof fn lemma_inject(elements: Seq<i16>) {
    }

    proof fn lemma_project(elements: ElementsView) {
    }

    fn halide_type_of() -> (t: HalideTypeTag) {
        HalideTypeTag { code: HalideTypeCode::Int, bits: 16, lanes: 1 }
    }

    fn name() -> (s: &'static str) {
        "i16"
    }

    fn blank(n: usize) -> (e: Elements) {
        Elements::I16(repeated(n, 0))
    }

    fn slice_of(elements: &Elements) -> (r: Option<&[i16]>) {
        match elements {
            Elements::I16(v) => Some(v.as_slice()),
            _ => None,
        }
    }

    fn slice_of_mut(elements: &mut Elements) -> (r: Option<&mut [i16]>) {
        match elements {
            Elements::I16(v) => Some(v.as_mut_slice()),
            _ => None,
        }
    }
}

impl Sealed for i32 {
}

impl HalideType for i32 {
    open spec fn tag() -> HalideTypeTag {
        HalideTypeTag { code: HalideTypeCode::Int, bits: 32, lanes: 1 }
    }

    open spec fn spec_name() -> Seq<char> {
        "i32"@
    }

    open spec fn project(elements: ElementsView) -> Option<Seq<i32>> {
        match elements {
            ElementsView::I32(s) => Some(s),
            _ => None,
        }
    }

    open spec fn inject(elements: Seq<i32>) -> ElementsView {
        ElementsView::I32(elements)
    }

    proof fn lemma_inject(elements: Seq<i32>) {
    }

    proof fn lemma_project(elements: ElementsView) {
    }

    fn halide_type_of() -> (t: HalideTypeTag) {
        HalideTypeTag { code: HalideTypeCode::Int, bits: 32, lanes: 1 }
    }

    fn name() -> (s: &'static str) {
        "i32"
    }

    fn blank(n: usize) -> (e: Elements) {
        Elements::I32(repeated(n, 0))
    }

    fn slice_of(elements: &Elements) -> (r: Option<&[i32]>) {
        match elements {
            Elements::I32(v) => Some(v.as_slice()),
            _ => None,
        }
    }

    fn slice_of_mut(elements: &mut Elements) -> (r: Option<&mut [i32]>) {
        match elements {
            Elements::I32(v) => Some(v.as_mut_slice()),
            _ => None,
        }
    }
}

impl Sealed for i64 {
}

impl HalideType for i64 {
    open spec fn tag() -> HalideTypeTag {
        HalideTypeTag { code: HalideTypeCode::Int, bits: 64, lanes: 1 }
    }

    open spec fn spec_name() -> Seq<char> {
        "i64"@
    }

    open spec fn project(elements: ElementsView) -> Option<Seq<i64>> {
        match elements {
            ElementsView::I64(s) => Some(s),
            _ => None,
        }
    }

    open spec fn inject(elements: Seq<i64>) -> ElementsView {
        ElementsView::I64(elements)
    }

    proof fn lemma_inject(elements: Seq<i64>) {
    }

    proof fn lemma_project(elements: ElementsView) {
    }

    fn halide_type_of() -> (t: HalideTypeTag) {
        HalideTypeTag { code: HalideTypeCode::Int, bits: 64, lanes: 1 }
    }

    fn name() -> (s: &'static str) {
        "i64"
    }

    fn blank(n: usize) -> (e: Elements) {
        Elements::I64(repeated(n, 0))
    }

    fn slice_of(elements: &Elements) -> (r: Option<&[i64]>) {
        match elements {
            Elements::I64(v) => Some(v.as_slice()),
            _ => None,
        }
    }

    fn slice_of_mut(elements: &mut Elements) -> (r: Option<&mut [i64]>) {
        match elements {
            Elements::I64(v) => Some(v.as_mut_slice()),
            _ => None,
        }
    }
}

impl Sealed for F32 {
}

impl HalideType for F32 {
    open spec fn tag() -> HalideTypeTag {
        HalideTypeTag { code: HalideTypeCode::Float, bits: 32, lanes: 1 }
    }

    open spec fn spec_name() -> Seq<char> {
        "f32"@
    }

    open spec fn project(elements: ElementsView) -> Option<Seq<F32>> {
        match elements {
            ElementsView::F32(s) => Some(s),
            _ => None,
        }
    }

    open spec fn inject(elements: Seq<F32>) -> ElementsView {
        ElementsView::F32(elements)
    }

    proof fn lemma_inject(elements: Seq<F32>) {
    }

    proof fn lemma_project(elements: ElementsView) {
    }

    fn halide_type_of() -> (t: HalideTypeTag) {
        HalideTypeTag { code: HalideTypeCode::Float, bits: 32, lanes: 1 }
    }

    fn name() -> (s: &'static str) {
        "f32"
    }

    fn blank(n: usize) -> (e: Elements) {
        Elements::F32(repeated(n, F32 { bits: 0 }))
    }

    fn slice_of(elements: &Elements) -> (r: Option<&[F32]>) {
        match elements {
            Elements::F32(v) => Some(v.as_slice()),
            _ => None,
        }
    }

    fn slice_of_mut(elements: &mut Elements) -> (r: Option<&mut [F32]>) {
        match elements {
            Elements::F32(v) => Some(v.as_mut_slice()),
            _ => None,
        }
    }
}

impl Sealed for F64 {
}

impl HalideType for F64 {
    open spec fn tag() -> HalideTypeTag {
        HalideTypeTag { code: HalideTypeCode::Float, bits: 64, lanes: 1 }
    }

    open spec fn spec_name() -> Seq<char> {
        "f64"@
    }

    open spec fn project(elements: ElementsView) -> Option<Seq<F64>> {
        match elements {
            ElementsView::F64(s) => Some(s),
            _ => None,
        }
    }

    open spec fn inject(elements: Seq<F64>) -> ElementsView {
        ElementsView::F64(elements)
    }

    proof fn lemma_inject(elements: Seq<F64>) {
    }

    proof fn lemma_project(elements: ElementsView) {
    }

    fn halide_type_of() -> (t: HalideTypeTag) {
        HalideTypeTag { code: HalideTypeCode::Float, bits: 64, lanes: 1 }
    }

    fn name() -> (s: &'static str) {
        "f64"
    }

    fn blank(n: usize) -> (e: Elements) {
        Elements::F64(repeated(n, F64 { bits: 0 }))
    }

    fn slice_of(elements: &Elements) -> (r: Option<&[F64]>) {
        match elements {
            Elements::F64(v) => Some(v.as_slice()),
            _ => None,
        }
    }

    fn slice_of_mut(elements: &mut Elements) -> (r: Option<&mut [F64]>) {
        match elements {
            Elements::F64(v) => Some(v.as_mut_slice()),
            _ => None,
        }
    }
}

} // verus!
