use wonnx::attributes::{Attribute, AttributeValue, Node};
use wonnx::environment::Value;
use wonnx::error::CompileError;
use wonnx::named::{compile, named_template, shape_of, variable_name_of, TensorDims};
use wonnx::types::ScalarType;

fn dims(name: &str, dims: &[i64]) -> TensorDims {
    TensorDims { name: name.to_string(), dims: dims.to_vec() }
}

fn graph_node(op: &str, inputs: &[&str], outputs: &[&str], attributes: Vec<(&str, AttributeValue)>) -> Node {
    Node {
        op_type: op.to_string(),
        inputs: inputs.iter().map(|name| name.to_string()).collect(),
        outputs: outputs.iter().map(|name| name.to_string()).collect(),
        attributes: attributes
            .into_iter()
            .map(|(name, value)| Attribute { name: name.to_string(), value })
            .collect(),
    }
}

#[test]
fn variable_names_leave_special_characters_out() {
    assert_eq!(variable_name_of("X"), "var_X");
    assert_eq!(variable_name_of("conv1/weights:0"), "var_conv1weights0");
    assert_eq!(variable_name_of("a(b),\"c\".d;e:f'g/h"), "var_abcdefgh");
    assert_eq!(variable_name_of(""), "var_");
    assert_eq!(variable_name_of("größe_1"), "var_größe_1");
}

#[test]
fn shapes_are_looked_up_by_name() {
    let table = [dims("X", &[2, 3]), dims("Y", &[4]), dims("X", &[9]), dims("Z", &[-1, 2])];
    let x = shape_of(&table, "X").unwrap();
    assert_eq!(x.dims(), &vec![2, 3]);
    assert_eq!(x.data_type(), ScalarType::F32);
    assert_eq!(shape_of(&table, "Y").unwrap().element_count(), 4);
    assert!(shape_of(&table, "W").is_none());
    assert!(shape_of(&table, "Z").is_none());
}

#[test]
fn tensors_without_dimensions() {
    let table = [dims("X", &[2, 3]), dims("Y", &[2, 3])];
    match named_template(&graph_node("Sqrt", &["X", "W"], &["Y"], vec![]), &table) {
        Err(CompileError::DimensionsMissing(tensor, node)) => {
            assert_eq!(tensor, "W");
            assert_eq!(node, "Sqrt");
        }
        other => panic!("expected missing dimensions, got {:?}", other),
    }
    match named_template(&graph_node("Sqrt", &["X"], &["V"], vec![]), &table) {
        Err(CompileError::DimensionsMissing(tensor, _)) => assert_eq!(tensor, "V"),
        other => panic!("expected missing dimensions, got {:?}", other),
    }
    match named_template(&graph_node("Sqrt", &["U", "X"], &["V"], vec![]), &table) {
        Err(CompileError::DimensionsMissing(tensor, _)) => assert_eq!(tensor, "U"),
        other => panic!("expected missing dimensions, got {:?}", other),
    }
}

#[test]
fn variables_of_a_named_node() {
    let table = [dims("in.1", &[2, 3, 4]), dims("out/1", &[2, 3, 4])];
    let template =
        named_template(&graph_node("Sqrt", &["in.1"], &["out/1"], vec![]), &table).unwrap();
    let environment = &template.environment;
    assert_eq!(environment.get("inputs"), Some(&Value::TextList(vec!["var_in1".to_string()])));
    assert_eq!(environment.get("outputs"), Some(&Value::TextList(vec!["var_out1".to_string()])));
    assert_eq!(environment.get("i_lens"), Some(&Value::UIntList(vec![24])));
    assert_eq!(environment.get("o_lens"), Some(&Value::UIntList(vec![24])));
    assert_eq!(environment.get("i_dims"), Some(&Value::UIntTable(vec![vec![2, 3, 4]])));
    assert_eq!(environment.get("o_dims"), Some(&Value::UIntTable(vec![vec![2, 3, 4]])));
    assert_eq!(environment.get("i_chunks"), Some(&Value::UIntTable(vec![vec![12, 4, 1]])));
    assert_eq!(environment.get("o_chunks"), Some(&Value::UIntTable(vec![vec![12, 4, 1]])));
    assert_eq!(environment.get("op_type"), Some(&Value::Text("Sqrt".to_string())));
    assert_eq!(environment.get("scalar_type"), None);
    assert_eq!(environment.get("workgroup_size_x"), None);
    assert_eq!(template.template, "endomorphism/map.wgsl");
    assert_eq!(template.threads, (6, 1, 1));
    assert_eq!(template.scalar_type, ScalarType::F32);
}

#[test]
fn templates_and_spans_of_named_nodes() {
    let table = [dims("X", &[1000]), dims("Y", &[1000])];
    let cases = [
        ("Abs", "endomorphism/map.wgsl", 250),
        ("Tanh", "endomorphism/map.wgsl", 250),
        ("Reshape", "endomorphism/copy.wgsl", 63),
        ("Dropout", "endomorphism/copy.wgsl", 63),
        ("Flatten", "endomorphism/copy.wgsl", 63),
        ("Squeeze", "endomorphism/copy.wgsl", 63),
        ("Softmax", "endomorphism/copy.wgsl", 63),
        ("Add", "endomorphism/arithmetic.wgsl", 250),
        ("Sub", "endomorphism/arithmetic.wgsl", 250),
        ("Relu", "endomorphism/activation.wgsl", 250),
        ("Elu", "endomorphism/activation.wgsl", 250),
        ("Concat", "matrix/concat.wgsl", 4),
        ("Transpose", "matrix/transpose.wgsl", 4),
    ];
    for (op, template_name, threads) in cases {
        let template = named_template(&graph_node(op, &["X"], &["Y"], vec![]), &table).unwrap();
        assert_eq!(template.template, template_name);
        assert_eq!(template.threads, (threads, 1, 1));
    }
    let sub = named_template(&graph_node("Sub", &["X"], &["Y"], vec![]), &table).unwrap();
    assert_eq!(sub.environment.get("op_type"), Some(&Value::Text("-".to_string())));
    let relu = named_template(&graph_node("Relu", &["X"], &["Y"], vec![]), &table).unwrap();
    assert_eq!(relu.environment.get("alpha"), Some(&Value::Text("1".to_string())));
    let transpose =
        named_template(&graph_node("Transpose", &["X"], &["Y"], vec![]), &table).unwrap();
    assert_eq!(transpose.environment.get("permuted_chunks"), Some(&Value::UIntList(vec![1])));
}

#[test]
fn named_nodes_that_are_not_implemented() {
    let table = [dims("X", &[8]), dims("Y", &[8])];
    for op in ["BatchNormalization", "Sum", "Reciprocal", "LeakyRelu", "GlobalAveragePool", "Identity", "Cast"] {
        match named_template(&graph_node(op, &["X"], &["Y"], vec![]), &table) {
            Err(CompileError::UnimplementedOp(name)) => assert_eq!(name, op),
            other => panic!("expected an unimplemented operator, got {:?}", other),
        }
    }
    match named_template(&graph_node("Sqrt", &["X"], &[], vec![]), &table) {
        Err(CompileError::InvalidOperation(name)) => assert_eq!(name, "Sqrt"),
        other => panic!("expected an invalid operation, got {:?}", other),
    }
}

#[test]
fn named_convolution() {
    let table = [dims("X", &[1, 16, 8, 8]), dims("W", &[4, 16, 1, 1]), dims("Y", &[1, 4, 8, 8])];
    let node = graph_node(
        "Conv",
        &["X", "W"],
        &["Y"],
        vec![("kernel_shape", AttributeValue::Ints(vec![1, 1]))],
    );
    let template = named_template(&node, &table).unwrap();
    assert_eq!(template.template, "pool/conv_kernel_1.wgsl");
    assert_eq!(template.threads, (1, 1, 1));
    assert_eq!(template.environment.get("kernel_channel_len"), Some(&Value::UInt(16)));
    assert_eq!(template.environment.get("alpha"), Some(&Value::Text("0.01".to_string())));
    let pool = graph_node(
        "AveragePool",
        &["X"],
        &["Y"],
        vec![
            ("kernel_shape", AttributeValue::Ints(vec![3, 3])),
            ("strides", AttributeValue::Ints(vec![2, 2])),
            ("auto_pad", AttributeValue::Text("SAME_UPPER".to_string())),
        ],
    );
    let template = named_template(&pool, &table).unwrap();
    assert_eq!(template.template, "pool/aggregate.wgsl");
    assert_eq!(template.environment.get("pad"), Some(&Value::IntList(vec![0, 0, 1, 1])));
}

#[test]
fn named_matrix_multiplication() {
    let table = [dims("A", &[8, 4]), dims("B", &[4, 32]), dims("C", &[8, 32]), dims("R", &[1, 4])];
    let template = named_template(&graph_node("MatMul", &["A", "B"], &["C"], vec![]), &table).unwrap();
    assert_eq!(template.template, "matrix/gemm.wgsl");
    assert_eq!(template.threads, (16, 1, 1));
    assert_eq!(template.environment.get("alpha"), Some(&Value::Text("1".to_string())));
    assert_eq!(template.environment.get("beta"), Some(&Value::Text("1".to_string())));
    let transposed = graph_node("Gemm", &["R", "B"], &["C"], vec![("transA", AttributeValue::Int(1))]);
    let template = named_template(&transposed, &table).unwrap();
    assert_eq!(template.template, "matrix/gemm_1.wgsl");
    assert_eq!(template.threads, (32, 1, 1));
}

#[test]
fn named_dispatch_may_exceed_the_limit_of_a_dimension() {
    let table = [dims("X", &[4 * 70000]), dims("Y", &[4 * 70000]), dims("H", &[i64::MAX])];
    let template = named_template(&graph_node("Sqrt", &["X"], &["Y"], vec![]), &table).unwrap();
    assert_eq!(template.threads, (70000, 1, 1));
    match named_template(&graph_node("Sqrt", &["H"], &["H"], vec![]), &table) {
        Err(CompileError::ComputeLimitExceeded(what, requested, limit)) => {
            assert_eq!(what, "X threads");
            assert_eq!(requested, u32::MAX);
            assert_eq!(limit, u32::MAX);
        }
        other => panic!("expected a limit to be exceeded, got {:?}", other),
    }
}

#[test]
fn named_compile_renders() {
    let templates = wonnx::templates::registry(&[wonnx::templates::TemplateSource {
        name: "endomorphism/arithmetic.wgsl".to_string(),
        content:
            "{{ outputs[0] }} = {{ inputs[0] }} {{ op_type }} {{ inputs[1] }}; // {{ o_lens[0] }}"
                .to_string(),
    }])
    .unwrap();
    let table = [dims("a:0", &[2, 5]), dims("b:0", &[2, 5]), dims("sum", &[2, 5])];
    let node = graph_node("Add", &["a:0", "b:0"], &["sum"], vec![]);
    let (shader, x, y, z) = compile(&node, &table, &templates).unwrap();
    assert_eq!(shader, "var_sum = var_a0 + var_b0; // 10");
    assert_eq!((x, y, z), (3, 1, 1));
    match compile(&graph_node("Sqrt", &["a:0"], &["sum"], vec![]), &table, &templates) {
        Err(CompileError::TemplateError(message)) => assert!(message.contains("endomorphism/map.wgsl")),
        other => panic!("expected a template error, got {:?}", other),
    }
}
