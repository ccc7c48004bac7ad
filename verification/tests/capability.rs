use mnn_tensor::capability::Device;
use mnn_tensor::capability::Dyn;
use mnn_tensor::capability::Host;
use mnn_tensor::capability::Ref;
use mnn_tensor::capability::RefMut;
use mnn_tensor::capability::TensorType;
use mnn_tensor::dimension::DimensionType;
use mnn_tensor::halide::halide_type_of;
use mnn_tensor::halide::HalideType;
use mnn_tensor::halide::HalideTypeCode;
use mnn_tensor::halide::HalideTypeTag;
use mnn_tensor::halide::F32;
use mnn_tensor::halide::F64;
use mnn_tensor::sys;

#[test]
fn owned_capabilities() {
    assert!(<Host<i32> as TensorType>::owned());
    assert!(!<Host<i32> as TensorType>::borrowed());
    assert!(<Host<i32> as TensorType>::host());
    assert!(!<Host<i32> as TensorType>::device());
    assert!(<Device<u8> as TensorType>::owned());
    assert!(!<Device<u8> as TensorType>::host());
    assert!(<Device<u8> as TensorType>::device());
}

#[test]
fn a_borrow_keeps_the_location_and_takes_the_ownership() {
    assert!(!<Ref<Host<i32>> as TensorType>::owned());
    assert!(<Ref<Host<i32>> as TensorType>::borrowed());
    assert!(<Ref<Host<i32>> as TensorType>::host());
    assert!(<Ref<Device<i32>> as TensorType>::device());
    assert!(!<RefMut<Device<i32>> as TensorType>::owned());
    assert!(<RefMut<Device<i32>> as TensorType>::device());
    assert!(<RefMut<Host<i32>> as TensorType>::host());
    assert!(<Ref<RefMut<Device<i64>>> as TensorType>::device());
    assert!(<RefMut<Ref<Host<i64>>> as TensorType>::host());
    assert!(<RefMut<Ref<Host<i64>>> as TensorType>::borrowed());
}

#[test]
fn an_erased_capability_answers_as_the_one_it_wraps() {
    assert!(<Dyn<Host<i32>> as TensorType>::owned());
    assert!(<Dyn<Host<i32>> as TensorType>::host());
    assert!(!<Dyn<Host<i32>> as TensorType>::device());
    assert!(<Dyn<Ref<Device<i32>>> as TensorType>::borrowed());
    assert!(<Dyn<Ref<Device<i32>>> as TensorType>::device());
}

#[test]
fn layouts_round_trip_through_the_engine_enumeration() {
    for layout in [DimensionType::Caffe, DimensionType::CaffeC4, DimensionType::TensorFlow] {
        assert_eq!(DimensionType::from(layout.to_mnn_sys()), layout);
    }
    for dm in [sys::DimensionType::Tensorflow, sys::DimensionType::Caffe, sys::DimensionType::CaffeC4] {
        assert_eq!(DimensionType::from(dm).to_mnn_sys(), dm);
    }
    assert_eq!(DimensionType::Caffe.to_mnn_sys(), sys::DimensionType::Caffe);
    assert_eq!(DimensionType::CaffeC4.to_mnn_sys(), sys::DimensionType::CaffeC4);
    assert_eq!(DimensionType::TensorFlow.to_mnn_sys(), sys::DimensionType::Tensorflow);
}

#[test]
fn layout_names() {
    assert_eq!(DimensionType::NHWC, DimensionType::TensorFlow);
    assert_eq!(DimensionType::NCHW, DimensionType::Caffe);
    assert_eq!(DimensionType::NC4HW4, DimensionType::CaffeC4);
}

#[test]
fn descriptors_of_the_element_types() {
    let tag = |code, bits| HalideTypeTag { code, bits, lanes: 1 };
    assert_eq!(halide_type_of::<bool>(), tag(HalideTypeCode::UInt, 1));
    assert_eq!(halide_type_of::<u8>(), tag(HalideTypeCode::UInt, 8));
    assert_eq!(halide_type_of::<u16>(), tag(HalideTypeCode::UInt, 16));
    assert_eq!(halide_type_of::<u32>(), tag(HalideTypeCode::UInt, 32));
    assert_eq!(halide_type_of::<u64>(), tag(HalideTypeCode::UInt, 64));
    assert_eq!(halide_type_of::<i8>(), tag(HalideTypeCode::Int, 8));
    assert_eq!(halide_type_of::<i16>(), tag(HalideTypeCode::Int, 16));
    assert_eq!(halide_type_of::<i32>(), tag(HalideTypeCode::Int, 32));
    assert_eq!(halide_type_of::<i64>(), tag(HalideTypeCode::Int, 64));
    assert_eq!(halide_type_of::<F32>(), tag(HalideTypeCode::Float, 32));
    assert_eq!(halide_type_of::<F64>(), tag(HalideTypeCode::Float, 64));
}

#[test]
fn bytes_round_the_bit_width_up() {
    assert_eq!(halide_type_of::<bool>().bytes(), 1);
    assert_eq!(halide_type_of::<u8>().bytes(), 1);
    assert_eq!(halide_type_of::<i16>().bytes(), 2);
    assert_eq!(halide_type_of::<u32>().bytes(), 4);
    assert_eq!(halide_type_of::<i64>().bytes(), 8);
    assert_eq!(HalideTypeTag { code: HalideTypeCode::Float, bits: 255, lanes: 1 }.bytes(), 32);
    assert_eq!(HalideTypeTag { code: HalideTypeCode::Handle, bits: 0, lanes: 1 }.bytes(), 0);
}

#[test]
fn names_of_the_element_types() {
    assert_eq!(<i32 as HalideType>::name(), "i32");
    assert_eq!(<u8 as HalideType>::name(), "u8");
    assert_eq!(<bool as HalideType>::name(), "bool");
    assert_eq!(<F32 as HalideType>::name(), "f32");
    assert_eq!(<F64 as HalideType>::name(), "f64");
}

#[test]
fn what_owns_or_borrows_mutably_may_write() {
    assert!(<Host<i32> as TensorType>::mutable());
    assert!(<Device<i32> as TensorType>::mutable());
    assert!(!<Ref<Host<i32>> as TensorType>::mutable());
    assert!(<RefMut<Host<i32>> as TensorType>::mutable());
    assert!(<RefMut<Ref<Host<i32>>> as TensorType>::mutable());
    assert!(!<Ref<RefMut<Host<i32>>> as TensorType>::mutable());
    assert!(!<Dyn<Ref<Host<i32>>> as TensorType>::mutable());
}
