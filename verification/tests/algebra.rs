use wonnx::types::{DataTypeError, MultiType, ScalarType, Shape};
use wonnx::workgroup::{
    ceil, workgroup_size, MAX_COMPUTE_WORKGROUPS_PER_DIMENSION, MAX_WORKGROUP_SIZE_X,
    MAX_WORKGROUP_SIZE_Y, MAX_WORKGROUP_SIZE_Z,
};
use wonnx::error::CompileError;

#[test]
fn device_limits() {
    assert_eq!(MAX_COMPUTE_WORKGROUPS_PER_DIMENSION, 65_535);
    assert_eq!(MAX_WORKGROUP_SIZE_X, 256);
    assert_eq!(MAX_WORKGROUP_SIZE_Y, 256);
    assert_eq!(MAX_WORKGROUP_SIZE_Z, 64);
}

#[test]
fn element_count_is_the_product_of_the_dimensions() {
    let shape = Shape::from(ScalarType::F32, &[3, 2, 2]).unwrap();
    assert_eq!(shape.element_count(), 12);
    assert_eq!(shape.rank(), 3);
    assert_eq!(shape.dim(0), 3);
    assert_eq!(shape.dim(2), 2);
    assert_eq!(shape.dims(), &vec![3, 2, 2]);
    assert_eq!(shape.data_type(), ScalarType::F32);
}

#[test]
fn chunk_vector_law() {
    let shape = Shape::from(ScalarType::F32, &[5, 4, 3, 2]).unwrap();
    let chunks = shape.chunks();
    assert_eq!(chunks, vec![24, 6, 2, 1]);
    assert_eq!(chunks.len(), shape.rank());
    assert_eq!(chunks[0], shape.element_count() / shape.dim(0));
    assert_eq!(*chunks.last().unwrap(), 1);
}

#[test]
fn chunk_vector_of_a_shape_without_axes() {
    let shape = Shape::from(ScalarType::I32, &[]).unwrap();
    assert_eq!(shape.element_count(), 1);
    assert_eq!(shape.chunks(), vec![1]);
}

#[test]
fn chunk_vector_with_a_zero_dimension() {
    let shape = Shape::from(ScalarType::F32, &[0, 4, 3]).unwrap();
    assert_eq!(shape.element_count(), 0);
    assert_eq!(shape.chunks(), vec![12, 3, 1]);
}

#[test]
fn shapes_that_do_not_fit_are_refused() {
    assert!(Shape::from(ScalarType::F32, &[-1, 2]).is_none());
    assert!(Shape::from(ScalarType::F32, &[i64::MAX, 4]).is_none());
    assert!(Shape::new(ScalarType::F32, vec![u64::MAX, 2]).is_none());
    assert!(Shape::new(ScalarType::F32, vec![0, u64::MAX, 2]).is_none());
    assert!(Shape::new(ScalarType::F32, vec![u64::MAX, 1, 0]).is_some());
    assert!(Shape::from(ScalarType::F32, &[i64::MAX, 2]).is_some());
}

#[test]
fn shape_text() {
    let shape = Shape::from(ScalarType::F32, &[3, 20, 100]).unwrap();
    assert_eq!(shape.text(), "3x20x100:f32");
    assert_eq!(Shape::from(ScalarType::I64, &[]).unwrap().text(), ":i64");
    assert_eq!(shape.clone().text(), "3x20x100:f32");
    assert_eq!(shape.clone(), shape);
    assert_ne!(shape, Shape::from(ScalarType::I32, &[3, 20, 100]).unwrap());
    assert_ne!(shape, Shape::from(ScalarType::F32, &[3, 20]).unwrap());
}

#[test]
fn scalar_types() {
    assert_eq!(ScalarType::from_i32(1), Ok(ScalarType::F32));
    assert_eq!(ScalarType::from_i32(2), Ok(ScalarType::U8));
    assert_eq!(ScalarType::from_i32(6), Ok(ScalarType::I32));
    assert_eq!(ScalarType::from_i32(7), Ok(ScalarType::I64));
    assert_eq!(ScalarType::from_i32(0), Err(DataTypeError::NotSupported(0)));
    assert_eq!(ScalarType::from_i32(11), Err(DataTypeError::NotSupported(11)));
    assert_eq!(ScalarType::from_i32(16), Err(DataTypeError::NotSupported(16)));
    assert_eq!(ScalarType::from_i32(17), Err(DataTypeError::NotRecognized(17)));
    assert_eq!(ScalarType::from_i32(-1), Err(DataTypeError::NotRecognized(-1)));
    assert_eq!(ScalarType::F32.stride(), 4);
    assert_eq!(ScalarType::I32.stride(), 4);
    assert_eq!(ScalarType::I64.stride(), 8);
    assert_eq!(ScalarType::U8.stride(), 1);
    assert_eq!(ScalarType::F32.wgsl_type_name(), "f32");
    assert_eq!(ScalarType::I32.wgsl_type_name(), "i32");
    assert_eq!(ScalarType::I64.wgsl_type_name(), "i64");
    assert_eq!(ScalarType::U8.wgsl_type_name(), "u8");
}

#[test]
fn multi_type_for_size_takes_the_widest_vector() {
    assert_eq!(MultiType::for_size(8, ScalarType::F32), MultiType::Vec(ScalarType::F32, 4));
    assert_eq!(MultiType::for_size(6, ScalarType::F32), MultiType::Vec(ScalarType::F32, 2));
    assert_eq!(MultiType::for_size(7, ScalarType::I32), MultiType::Scalar(ScalarType::I32));
    assert_eq!(MultiType::for_size(0, ScalarType::I32), MultiType::Vec(ScalarType::I32, 4));
}

#[test]
fn multi_type_strides_and_names() {
    assert_eq!(MultiType::Scalar(ScalarType::F32).stride(), 4);
    assert_eq!(MultiType::Vec(ScalarType::F32, 2).stride(), 8);
    assert_eq!(MultiType::Vec(ScalarType::F32, 3).stride(), 16);
    assert_eq!(MultiType::Vec(ScalarType::F32, 4).stride(), 16);
    assert_eq!(MultiType::Vec(ScalarType::I64, 3).stride(), 32);
    assert_eq!(MultiType::Mat(ScalarType::F32, 4, 4).stride(), 64);
    assert_eq!(MultiType::Scalar(ScalarType::F32).elements(), 1);
    assert_eq!(MultiType::Vec(ScalarType::F32, 3).elements(), 3);
    assert_eq!(MultiType::Mat(ScalarType::F32, 3, 4).elements(), 12);
    assert_eq!(MultiType::Scalar(ScalarType::I32).wgsl_type_name(), "i32");
    assert_eq!(MultiType::Vec(ScalarType::F32, 4).wgsl_type_name(), "vec4<f32>");
    assert_eq!(MultiType::Mat(ScalarType::F32, 4, 3).wgsl_type_name(), "mat4x3<f32>");
}

#[test]
fn ceil_rounds_up() {
    assert_eq!(ceil(0, 4), 0);
    assert_eq!(ceil(1, 4), 1);
    assert_eq!(ceil(4, 4), 1);
    assert_eq!(ceil(5, 4), 2);
    assert_eq!(ceil(u64::MAX, 1), u64::MAX);
    assert_eq!(ceil(u64::MAX, 2), 1 << 63);
}

#[test]
fn workgroup_size_of_a_count_that_fits() {
    assert_eq!(workgroup_size(0, 65535, 256).unwrap(), (0, 1));
    assert_eq!(workgroup_size(0, 0, 0).unwrap(), (0, 1));
    assert_eq!(workgroup_size(256, 65535, 256).unwrap(), (256, 1));
    assert_eq!(workgroup_size(65535, 65535, 256).unwrap(), (65535, 1));
}

#[test]
fn workgroup_size_splits_a_larger_count() {
    assert_eq!(workgroup_size(65536, 65535, 256).unwrap(), (32768, 2));
    assert_eq!(workgroup_size(100_000, 65535, 256).unwrap(), (50_000, 2));
    assert_eq!(workgroup_size(65535 * 256, 65535, 256).unwrap(), (65535, 256));
    assert_eq!(workgroup_size(10, 3, 4).unwrap(), (3, 4));
}

#[test]
fn workgroup_solver_law() {
    for max_threads in 1..6u32 {
        for max_group in 1..6u32 {
            for n in 0..=(max_threads * max_group + 3) {
                let result = workgroup_size(n as u64, max_threads, max_group);
                if n <= max_threads * max_group {
                    let (threads, group) = result.unwrap();
                    assert!(threads * group >= n);
                    assert!(threads <= max_threads);
                    assert!(group <= max_group);
                } else {
                    assert!(result.is_err());
                }
            }
        }
    }
}

#[test]
fn workgroup_size_beyond_the_limit() {
    match workgroup_size(65535 * 256 + 1, 65535, 256) {
        Err(CompileError::ComputeLimitExceeded(what, requested, limit)) => {
            assert_eq!(what, "workgroup size");
            assert_eq!(requested, 257);
            assert_eq!(limit, 256);
        }
        other => panic!("expected a limit to be exceeded, got {:?}", other),
    }
    match workgroup_size(u64::MAX, 1, 256) {
        Err(CompileError::ComputeLimitExceeded(what, requested, limit)) => {
            assert_eq!(what, "workgroup size");
            assert_eq!(requested, u32::MAX);
            assert_eq!(limit, 256);
        }
        other => panic!("expected a limit to be exceeded, got {:?}", other),
    }
}
