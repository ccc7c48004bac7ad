//! The semantic ordering of a buffer's axes.
use vstd::prelude::*;
use crate::sys;

verus! {

/// How the axes of a buffer map to batch (N), channel (C), height (H) and
/// width (W). It describes the buffer; it does not change what is stored.
#[derive(Debug, Clone, Copy, PartialEq, Eq, Hash, Structural)]
pub enum DimensionType {
    /// NCHW
    Caffe,
    /// NC4HW4: as NCHW, with the channel packed in groups of four
    CaffeC4,
    /// NHWC
    TensorFlow,
}

impl DimensionType {
    pub const NHWC: Self = Self::TensorFlow;

    pub const NCHW: Self = Self::Caffe;

    pub const NC4HW4: Self = Self::CaffeC4;

    /// The engine's value for this layout.
    pub open spec fn as_mnn_sys(&self) -> sys::DimensionType {
        match *self {
            DimensionType::Caffe => sys::DimensionType::Caffe,
            DimensionType::CaffeC4 => sys::DimensionType::CaffeC4,
            DimensionType::TensorFlow => sys::DimensionType::Tensorflow,
        }
    }

    /// The layout that a value of the engine's enumeration stands for.
    pub open spec fn of_mnn_sys(dm: sys::DimensionType) -> DimensionType {
        match dm {
            sys::DimensionType::Caffe => DimensionType::Caffe,
            sys::DimensionType::CaffeC4 => DimensionType::CaffeC4,
            sys::DimensionType::Tensorflow => DimensionType::TensorFlow,
        }
    }

    pub fn to_mnn_sys(&self) -> (dm: sys::DimensionType)
        ensures
            dm == self.as_mnn_sys(),
    {
        match self {
            DimensionType::Caffe => sys::DimensionType::Caffe,
            DimensionType::CaffeC4 => sys::DimensionType::CaffeC4,
            DimensionType::TensorFlow => sys::DimensionType::Tensorflow,
        }
    }

    /// A layout survives the trip through the engine's enumeration, and a
    /// value of the engine's enumeration survives the trip through a layout.
    pub proof fn lemma_round_trip(layout: DimensionType, dm: sys::DimensionType)
        ensures
            DimensionType::of_mnn_sys(layout.as_mnn_sys()) == layout,
            DimensionType::of_mnn_sys(dm).as_mnn_sys() == dm,
    {
    }
}

impl From<sys::DimensionType> for DimensionType {
    fn from(dm: sys::DimensionType) -> (layout: DimensionType) {
        match dm {
            sys::DimensionType::Caffe => DimensionType::Caffe,
            sys::DimensionType::CaffeC4 => DimensionType::CaffeC4,
            sys::DimensionType::Tensorflow => DimensionType::TensorFlow,
        }
    }
}

impl vstd::std_specs::convert::FromSpecImpl<sys::DimensionType> for DimensionType {
    open spec fn obeys_from_spec() -> bool {
        true
    }

    open spec fn from_spec(dm: sys::DimensionType) -> DimensionType {
        DimensionType::of_mnn_sys(dm)
    }
}

} // verus!
