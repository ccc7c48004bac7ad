use mnn_tensor::capability::Device;
use mnn_tensor::capability::Host;
use mnn_tensor::capability::Ref;
use mnn_tensor::capability::RefMut;
use mnn_tensor::dimension::DimensionType;
use mnn_tensor::engine::Engine;
use mnn_tensor::error::ErrorKind;
use mnn_tensor::halide::halide_type_of;
use mnn_tensor::halide::HalideTypeCode;
use mnn_tensor::halide::F32;
use mnn_tensor::halide::F64;
use mnn_tensor::raw::RawTensor;
use mnn_tensor::sys::MapType;
use mnn_tensor::sys::TensorPtr;
use mnn_tensor::tensor::Tensor;

#[test]
pub fn test_tensor_borrowed() {
    let mut engine = Engine::new();
    let shape = [1, 2, 3];
    let data = vec![1, 2, 3, 4, 5, 6];
    let tensor = Tensor::<Ref<Host<i32>>>::borrowed(&mut engine, &shape, &data);
    assert_eq!(tensor.shape(&engine).as_ref(), shape);
    assert_eq!(tensor.host(&engine), data.as_slice());
}

#[test]
pub fn test_tensor_borrow_mut() {
    let mut engine = Engine::new();
    let shape = [1, 2, 3];
    let mut data = vec![1, 2, 3, 4, 5, 6];
    let mut tensor = Tensor::<RefMut<Host<i32>>>::borrowed_mut(&mut engine, &shape, &mut data);
    tensor.host_mut(&mut engine).fill(1);
    assert_eq!(data, &[1, 1, 1, 1, 1, 1]);
}

#[test]
fn borrowed_handle_stands_on_the_first_elements() {
    let mut engine = Engine::new();
    let mut data = vec![1u8, 2, 3, 4, 5, 6, 7, 8];
    let mut tensor = Tensor::<RefMut<Host<u8>>>::borrowed_mut(&mut engine, [2, 3], &mut data);
    assert_eq!(tensor.host(&engine), &[1, 2, 3, 4, 5, 6]);
    tensor.fill(&mut engine, 0);
    assert_eq!(data, &[0, 0, 0, 0, 0, 0, 7, 8]);
    let tensor = Tensor::<Ref<Host<u8>>>::borrowed(&mut engine, [2, 2], &data);
    assert_eq!(tensor.host(&engine), &[0, 0, 0, 0]);
    assert_eq!(tensor.get_dimension_type(&engine), DimensionType::Caffe);
}

#[test]
fn owned_host_tensor_filled() {
    let mut engine = Engine::new();
    let mut tensor = Tensor::<Host<i32>>::new(&mut engine, [1, 2, 3], DimensionType::Caffe);
    tensor.fill(&mut engine, 42);
    let host = tensor.host(&engine);
    assert_eq!(host.len(), 6);
    assert!(host.iter().all(|x| *x == 42));
    assert_eq!(tensor.try_host(&engine), Ok(&[42, 42, 42, 42, 42, 42][..]));
    tensor.destroy(&mut engine);
}

#[test]
fn device_fill_round_trip() {
    let mut engine = Engine::new();
    let mut device = Tensor::<Device<i16>>::new(&mut engine, [2, 2, 2], DimensionType::CaffeC4);
    device.fill(&mut engine, -7);
    assert_eq!(engine.count_live(), 1);
    let copy = device.create_host_tensor_from_device(&mut engine, true);
    let mut direct = Tensor::<Host<i16>>::new(&mut engine, [2, 2, 2], DimensionType::CaffeC4);
    direct.fill(&mut engine, -7);
    assert_eq!(copy.host(&engine), direct.host(&engine));
    assert_eq!(copy.host(&engine), &[-7; 8]);
    assert_eq!(copy.shape(&engine).as_slice(), &[2, 2, 2]);
    assert_eq!(copy.get_dimension_type(&engine), DimensionType::CaffeC4);
    assert_eq!(engine.count_live(), 3);
}

#[test]
fn host_tensor_from_device_without_copy() {
    let mut engine = Engine::new();
    let device = Tensor::<Device<u32>>::new(&mut engine, [3, 5], DimensionType::TensorFlow);
    let out = device.create_host_tensor_from_device(&mut engine, false);
    assert_eq!(out.element_size(&engine), 15);
    assert_eq!(out.shape(&engine).as_slice(), &[3, 5]);
    assert_eq!(out.get_dimension_type(&engine), DimensionType::TensorFlow);
    assert_eq!(out.host(&engine).len(), 15);
}

#[test]
fn wrong_type_is_a_mismatch() {
    let mut engine = Engine::new();
    let tensor = Tensor::<Host<u8>>::new(&mut engine, [4], DimensionType::Caffe);
    let raw = RawTensor::from_ptr(tensor.as_ptr());
    let mut wrong: Tensor<Host<i32>> = raw.to_concrete();
    assert_eq!(wrong.try_host(&engine), Err(ErrorKind::HalideTypeMismatch { got: "i32" }));
    assert!(matches!(
        wrong.try_host_mut(&mut engine),
        Err(ErrorKind::HalideTypeMismatch { got: "i32" })
    ));
    assert!(!wrong.is_type_of::<i32>(&engine));
    assert!(wrong.is_type_of::<u8>(&engine));
    assert_eq!(wrong.get_type(&engine), halide_type_of::<u8>());
}

#[test]
fn clone_has_storage_of_its_own() {
    let mut engine = Engine::new();
    let mut source = Tensor::<Host<i64>>::new(&mut engine, [2, 2], DimensionType::Caffe);
    source.fill(&mut engine, 5);
    let mut clone = source.clone(&mut engine);
    assert_eq!(clone.host(&engine), &[5, 5, 5, 5]);
    clone.host_mut(&mut engine)[1] = 9;
    assert_eq!(source.host(&engine), &[5, 5, 5, 5]);
    assert_eq!(clone.host(&engine), &[5, 9, 5, 5]);
    assert_ne!(clone.as_ptr(), source.as_ptr());
    assert_eq!(clone.shape(&engine).as_slice(), &[2, 2]);
}

#[test]
fn owned_handle_releases_once_and_borrowed_never() {
    let mut engine = Engine::new();
    assert_eq!(engine.count_live(), 0);
    let tensor = Tensor::<Host<i32>>::new(&mut engine, [2], DimensionType::Caffe);
    let p = tensor.as_ptr();
    assert_eq!(engine.count_live(), 1);
    assert!(engine.contains(p));
    let borrowed = tensor.as_ref();
    assert_eq!(borrowed.as_ptr(), p);
    borrowed.destroy(&mut engine);
    assert_eq!(engine.count_live(), 1);
    assert!(engine.contains(p));
    let again: Tensor<RefMut<Host<i32>>> = Tensor::from_ptr(p);
    again.destroy(&mut engine);
    assert_eq!(engine.count_live(), 1);
    tensor.destroy(&mut engine);
    assert_eq!(engine.count_live(), 0);
    assert!(!engine.contains(p));
}

#[test]
fn an_address_is_never_handed_out_twice() {
    let mut engine = Engine::new();
    let first = Tensor::<Host<u8>>::new(&mut engine, [1], DimensionType::Caffe);
    let p = first.as_ptr();
    first.destroy(&mut engine);
    let second = Tensor::<Host<u8>>::new(&mut engine, [1], DimensionType::Caffe);
    assert_ne!(second.as_ptr(), p);
    assert!(!engine.contains(p));
    assert!(!engine.contains(TensorPtr::null()));
    assert!(TensorPtr::null().is_null());
    assert!(!second.as_ptr().is_null());
}

#[test]
fn copy_between_host_and_device() {
    let mut engine = Engine::new();
    let mut host = Tensor::<Host<u16>>::new(&mut engine, [3], DimensionType::Caffe);
    host.host_mut(&mut engine).copy_from_slice(&[10, 20, 30]);
    let mut device = Tensor::<Device<u16>>::new(&mut engine, [3], DimensionType::Caffe);
    assert_eq!(device.copy_from_host_tensor(&mut engine, &host), Ok(()));
    let mut back = Tensor::<Host<u16>>::new(&mut engine, [1, 3], DimensionType::Caffe);
    assert_eq!(device.copy_to_host_tensor(&mut engine, &mut back), Ok(()));
    assert_eq!(back.host(&engine), &[10, 20, 30]);
    device.wait(&engine, MapType::MapTensorRead, true);
    device.wait(&engine, MapType::MapTensorWrite, false);
}

#[test]
fn copy_fails_where_the_counts_differ() {
    let mut engine = Engine::new();
    let mut host = Tensor::<Host<u16>>::new(&mut engine, [4], DimensionType::Caffe);
    host.fill(&mut engine, 1);
    let mut device = Tensor::<Device<u16>>::new(&mut engine, [3], DimensionType::Caffe);
    device.fill(&mut engine, 2);
    assert_eq!(
        device.copy_from_host_tensor(&mut engine, &host),
        Err(ErrorKind::TensorCopyFailed(0))
    );
    assert_eq!(
        device.copy_to_host_tensor(&mut engine, &mut host),
        Err(ErrorKind::TensorCopyFailed(0))
    );
    assert_eq!(host.host(&engine), &[1, 1, 1, 1]);
    let check = device.create_host_tensor_from_device(&mut engine, true);
    assert_eq!(check.host(&engine), &[2, 2, 2]);
}

#[test]
fn copy_fails_where_the_types_differ() {
    let mut engine = Engine::new();
    let bytes = Tensor::<Host<u8>>::new(&mut engine, [2], DimensionType::Caffe);
    let host: Tensor<Host<i8>> = RawTensor::from_ptr(bytes.as_ptr()).to_concrete();
    let mut device = Tensor::<Device<i8>>::new(&mut engine, [2], DimensionType::Caffe);
    assert_eq!(
        device.copy_from_host_tensor(&mut engine, &host),
        Err(ErrorKind::TensorCopyFailed(0))
    );
}

#[test]
fn introspection() {
    let mut engine = Engine::new();
    let nchw = Tensor::<Host<i32>>::new(&mut engine, [2, 3, 4, 5], DimensionType::Caffe);
    assert_eq!(nchw.dimensions(&engine), 4);
    assert_eq!(nchw.batch(&engine), 2);
    assert_eq!(nchw.channel(&engine), 3);
    assert_eq!(nchw.height(&engine), 4);
    assert_eq!(nchw.width(&engine), 5);
    assert_eq!(nchw.element_size(&engine), 120);
    assert_eq!(nchw.size(&engine), 480);
    assert_eq!(nchw.device_id(&engine), 0);
    assert!(!nchw.is_dynamic(&engine));
    let nhwc = Tensor::<Device<u8>>::new(&mut engine, [2, 3, 4, 5], DimensionType::TensorFlow);
    assert_eq!(nhwc.batch(&engine), 2);
    assert_eq!(nhwc.height(&engine), 3);
    assert_eq!(nhwc.width(&engine), 4);
    assert_eq!(nhwc.channel(&engine), 5);
    assert_eq!(nhwc.size(&engine), 120);
    assert_eq!(nhwc.device_id(&engine), 2);
    assert_eq!(nhwc.get_dimension_type(&engine), DimensionType::NHWC);
}

#[test]
fn axes_of_a_low_rank_buffer_default_to_one() {
    let mut engine = Engine::new();
    let tensor = Tensor::<Host<i32>>::new(&mut engine, [7, 9], DimensionType::Caffe);
    assert_eq!(tensor.dimensions(&engine), 2);
    assert_eq!(tensor.batch(&engine), 7);
    assert_eq!(tensor.channel(&engine), 9);
    assert_eq!(tensor.height(&engine), 1);
    assert_eq!(tensor.width(&engine), 1);
}

#[test]
fn a_dynamic_dimension_leaves_the_buffer_without_elements() {
    let mut engine = Engine::new();
    let tensor = Tensor::<Host<i32>>::new(&mut engine, [1, -1, 3], DimensionType::Caffe);
    assert!(tensor.is_dynamic(&engine));
    assert_eq!(tensor.element_size(&engine), 0);
    assert_eq!(tensor.host(&engine).len(), 0);
    assert_eq!(tensor.channel(&engine), u32::MAX);
}

#[test]
fn a_shape_of_more_than_four_dimensions_is_cut() {
    let mut engine = Engine::new();
    let tensor = Tensor::<Host<i32>>::new(&mut engine, vec![1, 2, 3, 4, 5], DimensionType::Caffe);
    assert_eq!(tensor.shape(&engine).as_slice(), &[1, 2, 3, 4]);
    assert_eq!(tensor.element_size(&engine), 24);
}

#[test]
fn raw_tensor_answers_and_releases() {
    let mut engine = Engine::new();
    let tensor = Tensor::<Host<i32>>::new(&mut engine, [2, 3, 4, 5], DimensionType::Caffe);
    let raw = RawTensor::from_ptr(tensor.as_ptr());
    assert_eq!(raw.shape(&engine).as_slice(), &[2, 3, 4, 5]);
    assert_eq!(raw.dimensions(&engine), 4);
    assert_eq!(raw.batch(&engine), 2);
    assert_eq!(raw.channel(&engine), 3);
    assert_eq!(raw.height(&engine), 4);
    assert_eq!(raw.width(&engine), 5);
    raw.destroy(&mut engine);
    assert_eq!(engine.count_live(), 0);
}

#[test]
fn raw_tensor_becomes_a_typed_handle() {
    let mut engine = Engine::new();
    let mut tensor = Tensor::<Host<u64>>::new(&mut engine, [2], DimensionType::Caffe);
    tensor.fill(&mut engine, 3);
    let raw = RawTensor::from_ptr(tensor.as_ptr());
    let typed: Tensor<Host<u64>> = raw.to_concrete();
    assert_eq!(typed.host(&engine), &[3, 3]);
    typed.destroy(&mut engine);
    assert_eq!(engine.count_live(), 0);
}

#[test]
fn fits_and_room() {
    let engine = Engine::new();
    assert!(engine.room());
    let small = mnn_tensor::sys::TensorShape { shape: [2, 2, 1, 1], size: 2 };
    assert!(Engine::check_fits::<i64>(&small));
    let huge = mnn_tensor::sys::TensorShape { shape: [i32::MAX; 4], size: 4 };
    assert!(!Engine::check_fits::<u8>(&huge));
}

#[test]
fn floating_point_elements_are_held_by_their_bits() {
    let mut engine = Engine::new();
    let mut tensor = Tensor::<Host<F32>>::new(&mut engine, [2, 2], DimensionType::Caffe);
    tensor.fill(&mut engine, F32 { bits: 1.5f32.to_bits() });
    let numbers: Vec<f32> = tensor.host(&engine).iter().map(|e| f32::from_bits(e.bits)).collect();
    assert_eq!(numbers, vec![1.5f32; 4]);
    assert_eq!(tensor.get_type(&engine).code, HalideTypeCode::Float);
    assert_eq!(tensor.get_type(&engine).bits, 32);
    assert_eq!(tensor.size(&engine), 16);
    let wide = Tensor::<Device<F64>>::new(&mut engine, [3], DimensionType::Caffe);
    assert_eq!(wide.get_type(&engine), halide_type_of::<F64>());
    assert_eq!(wide.size(&engine), 24);
    let wrong: Tensor<Host<u32>> = RawTensor::from_ptr(tensor.as_ptr()).to_concrete();
    assert_eq!(wrong.try_host(&engine), Err(ErrorKind::HalideTypeMismatch { got: "u32" }));
    let wrong: Tensor<Host<F32>> = RawTensor::from_ptr(wrong.as_ptr()).to_concrete();
    assert!(wrong.try_host(&engine).is_ok());
}

#[test]
fn usable_tells_live_from_dead_and_fit_from_misfit() {
    let mut engine = Engine::new();
    let host = Tensor::<Host<i32>>::new(&mut engine, [2], DimensionType::Caffe);
    let device = Tensor::<Device<i32>>::new(&mut engine, [2], DimensionType::Caffe);
    assert!(host.usable(&engine));
    assert!(device.usable(&engine));
    assert!(host.as_ref().usable(&engine));
    let misplaced: Tensor<Device<i32>> = Tensor::from_ptr(host.as_ptr());
    assert!(!misplaced.usable(&engine));
    let data = [1, 2];
    let borrowed = Tensor::<Ref<Host<i32>>>::borrowed(&mut engine, [2], &data);
    assert!(borrowed.usable(&engine));
    let forged: Tensor<Ref<Host<i32>>> = Tensor::from_ptr(borrowed.as_ptr());
    assert!(!forged.usable(&engine));
    let p = device.as_ptr();
    device.destroy(&mut engine);
    let stale: Tensor<Device<i32>> = Tensor::from_ptr(p);
    assert!(!stale.usable(&engine));
    assert!(host.usable(&engine));
}
