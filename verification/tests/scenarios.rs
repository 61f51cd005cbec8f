use wonnx::attributes::{Attribute, AttributeValue, Node};
use wonnx::compiler::{compile, node_template};
use wonnx::environment::Value;
use wonnx::error::CompileError;
use wonnx::types::{ScalarType, Shape};

fn shape_of(dims: &[i64]) -> Shape {
    Shape::from(ScalarType::F32, dims).expect("dimensions fit")
}

fn node_of(op: &str, attributes: Vec<(&str, AttributeValue)>) -> Node {
    Node {
        op_type: op.to_string(),
        inputs: vec!["X".to_string()],
        outputs: vec!["Y".to_string()],
        attributes: attributes
            .into_iter()
            .map(|(name, value)| Attribute { name: name.to_string(), value })
            .collect(),
    }
}

fn registry_with(name: &str, source: &str) -> tera::Tera {
    wonnx::templates::registry(&[wonnx::templates::TemplateSource {
        name: name.to_string(),
        content: source.to_string(),
    }])
    .expect("template parses")
}

#[test]
fn unary_map_large() {
    let node = node_of("Sqrt", vec![]);
    let input = shape_of(&[1, 1, 1, 1024]);
    let output = shape_of(&[1, 1, 1, 1024]);
    let template = node_template(&node, &[&input], &[&output], 13).expect("selects");
    assert_eq!(template.template, "endomorphism/map.wgsl");
    assert_eq!(template.threads, (256, 1, 1));
    assert_eq!(template.environment.get("workgroup_size_x"), Some(&Value::UInt(1)));
    assert_eq!(template.scalar_type, ScalarType::F32);
}

#[test]
fn binary_arithmetic() {
    let node = node_of("Add", vec![]);
    let a = shape_of(&[2, 3]);
    let b = shape_of(&[2, 3]);
    let output = shape_of(&[2, 3]);
    let template = node_template(&node, &[&a, &b], &[&output], 13).expect("selects");
    assert_eq!(template.template, "endomorphism/arithmetic.wgsl");
    assert_eq!(template.environment.get("op_type"), Some(&Value::Text("+".to_string())));
    assert_eq!(template.threads, (2, 1, 1));
}

#[test]
fn compile_renders_the_bound_variables() {
    let templates = registry_with(
        "endomorphism/map.wgsl",
        "{{ op_type }}/{{ scalar_type }}/{{ i_lens[0] }}/{{ o_chunks[0] }}/{{ workgroup_size_x }}/{{ opset_version }}",
    );
    let node = node_of("Sqrt", vec![]);
    let input = shape_of(&[2, 3, 4]);
    let output = shape_of(&[2, 3, 4]);
    let compiled = compile(&node, &[&input], &[&output], 13, &templates).expect("compiles");
    assert_eq!(compiled.shader, "Sqrt/f32/24/[12, 4, 1]/1/13");
    assert_eq!(compiled.threads, (6, 1, 1));
}

#[test]
fn compile_reports_a_template_that_is_missing() {
    let templates = wonnx::templates::registry(&[]).expect("no template to parse");
    let node = node_of("Sqrt", vec![]);
    let input = shape_of(&[4]);
    let output = shape_of(&[4]);
    match compile(&node, &[&input], &[&output], 13, &templates) {
        Err(CompileError::TemplateError(message)) => {
            assert!(message.contains("endomorphism/map.wgsl"))
        }
        other => panic!("expected a template error, got {:?}", other),
    }
}

#[test]
fn conv_fast_one_by_one_path() {
    let node = node_of(
        "Conv",
        vec![
            ("kernel_shape", AttributeValue::Ints(vec![1, 1])),
            ("strides", AttributeValue::Ints(vec![1, 1])),
            ("dilations", AttributeValue::Ints(vec![1, 1])),
            ("pads", AttributeValue::Ints(vec![0, 0, 0, 0])),
        ],
    );
    let input = shape_of(&[1, 16, 8, 8]);
    let weights = shape_of(&[4, 16, 1, 1]);
    let output = shape_of(&[1, 4, 8, 8]);
    let template = node_template(&node, &[&input, &weights], &[&output], 13).expect("selects");
    assert_eq!(template.template, "pool/conv_kernel_1.wgsl");
    assert_eq!(template.threads, (1, 1, 1));
    assert_eq!(template.environment.get("alpha"), Some(&Value::Text("0.01".to_string())));
    assert_eq!(template.environment.get("kernel_len"), Some(&Value::Int(1)));
    assert_eq!(template.environment.get("kernel_channel_len"), Some(&Value::UInt(16)));
}

#[test]
fn conv_same_upper_pads() {
    let node = node_of(
        "Conv",
        vec![
            ("kernel_shape", AttributeValue::Ints(vec![3, 3])),
            ("strides", AttributeValue::Ints(vec![2, 2])),
            ("dilations", AttributeValue::Ints(vec![1, 1])),
            ("auto_pad", AttributeValue::Text("SAME_UPPER".to_string())),
        ],
    );
    let input = shape_of(&[1, 3, 8, 8]);
    let output = shape_of(&[1, 4, 4, 4]);
    let template = node_template(&node, &[&input], &[&output], 13).expect("selects");
    assert_eq!(template.environment.get("pad"), Some(&Value::IntList(vec![0, 0, 1, 1])));
    assert_eq!(template.template, "pool/conv.wgsl");
    assert_eq!(template.threads, (1, 1, 1));
}

#[test]
fn conv_same_lower_pads() {
    let node = node_of(
        "Conv",
        vec![
            ("kernel_shape", AttributeValue::Ints(vec![3, 3])),
            ("strides", AttributeValue::Ints(vec![2, 2])),
            ("dilations", AttributeValue::Ints(vec![1, 1])),
            ("auto_pad", AttributeValue::Text("SAME_LOWER".to_string())),
        ],
    );
    let input = shape_of(&[1, 3, 8, 8]);
    let output = shape_of(&[1, 4, 4, 4]);
    let template = node_template(&node, &[&input], &[&output], 13).expect("selects");
    assert_eq!(template.environment.get("pad"), Some(&Value::IntList(vec![1, 1, 0, 0])));
}

#[test]
fn reduction_with_negative_axes() {
    let node = node_of("ReduceSum", vec![("axes", AttributeValue::Ints(vec![-2]))]);
    let input = shape_of(&[3, 2, 2]);
    let output = shape_of(&[3, 1, 2]);
    let template = node_template(&node, &[&input], &[&output], 13).expect("selects");
    assert_eq!(template.template, "pool/reduce.wgsl");
    assert_eq!(template.environment.get("axes"), Some(&Value::IntList(vec![1])));
    assert_eq!(template.threads, (6, 1, 1));
    assert_eq!(
        template.environment.get("chunks_with_dims_preserved"),
        Some(&Value::UIntList(shape_of(&[3, 1, 2]).chunks()))
    );
    assert_eq!(
        template.environment.get("chunks_with_dims_preserved"),
        Some(&Value::UIntList(vec![2, 2, 1]))
    );
}

#[test]
fn limit_breach() {
    let node = node_of("Sqrt", vec![]);
    let elements = 4 * (65535 * 256 + 1);
    let input = shape_of(&[elements]);
    let output = shape_of(&[elements]);
    match node_template(&node, &[&input], &[&output], 13) {
        Err(CompileError::ComputeLimitExceeded(what, requested, limit)) => {
            assert_eq!(what, "workgroup size");
            assert_eq!(requested, 257);
            assert_eq!(limit, 256);
        }
        other => panic!("expected a limit to be exceeded, got {:?}", other),
    }
}

#[test]
fn largest_unary_map_within_limits() {
    let node = node_of("Sqrt", vec![]);
    let elements = 4 * 65535 * 256;
    let input = shape_of(&[elements]);
    let output = shape_of(&[elements]);
    let template = node_template(&node, &[&input], &[&output], 13).expect("selects");
    assert_eq!(template.threads, (65535, 1, 1));
    assert_eq!(template.environment.get("workgroup_size_x"), Some(&Value::UInt(256)));
}

#[test]
fn softmax_opset_boundary() {
    let node = node_of("Softmax", vec![]);
    let input = shape_of(&[1, 10]);
    let output = shape_of(&[1, 10]);
    let template = node_template(&node, &[&input], &[&output], 12).expect("selects");
    assert_eq!(template.threads, (1, 1, 1));
    assert_eq!(template.template, "endomorphism/softmax.wgsl");
    match node_template(&node, &[&input], &[&output], 16) {
        Err(CompileError::UnsupportedOpsetVersion(16)) => {}
        other => panic!("expected an unsupported version, got {:?}", other),
    }
}

#[test]
fn gemm_rejects_transpose() {
    let node = node_of("Gemm", vec![("transA", AttributeValue::Int(1))]);
    let a = shape_of(&[4, 8]);
    let b = shape_of(&[8, 16]);
    let output = shape_of(&[4, 16]);
    match node_template(&node, &[&a, &b], &[&output], 13) {
        Err(CompileError::UnimplementedVariant { variant, op }) => {
            assert_eq!(op, "Gemm");
            assert_eq!(variant, "Gemm with transA/transB/broadcast not equal to zero");
        }
        other => panic!("expected an unimplemented variant, got {:?}", other),
    }
}
