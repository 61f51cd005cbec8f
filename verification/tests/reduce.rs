use wonnx::attributes::{Attribute, AttributeValue, Node};
use wonnx::compiler::{compile, node_template};
use wonnx::environment::Value;
use wonnx::types::{ScalarType, Shape};

fn check_reduce(
    data_shape: &[i64],
    axes: Option<Vec<i64>>,
    op_name: &str,
    keep_dims: bool,
    output_shape: &[i64],
    expected_axes: &[i64],
    expected_chunks: &[u64],
) {
    let mut attributes = vec![Attribute {
        name: "keepdims".to_string(),
        value: AttributeValue::Int(if keep_dims { 1 } else { 0 }),
    }];
    if let Some(axes) = axes {
        attributes.push(Attribute { name: "axes".to_string(), value: AttributeValue::Ints(axes) });
    }
    let node = Node {
        op_type: op_name.to_string(),
        inputs: vec!["X".to_string()],
        outputs: vec!["Y".to_string()],
        attributes,
    };
    let input = Shape::from(ScalarType::F32, data_shape).expect("dimensions fit");
    let output = Shape::from(ScalarType::F32, output_shape).expect("dimensions fit");
    let template = node_template(&node, &[&input], &[&output], 13).expect("selects");
    assert_eq!(template.template, "pool/reduce.wgsl");
    assert_eq!(template.scalar_type, ScalarType::F32);
    assert_eq!(template.threads, (output.element_count() as u32, 1, 1));
    assert_eq!(template.environment.get("workgroup_size_x"), Some(&Value::UInt(1)));
    assert_eq!(template.environment.get("axes"), Some(&Value::IntList(expected_axes.to_vec())));
    assert_eq!(
        template.environment.get("chunks_with_dims_preserved"),
        Some(&Value::UIntList(expected_chunks.to_vec()))
    );
    assert_eq!(template.environment.get("op_type"), Some(&Value::Text(op_name.to_string())));

    let templates = wonnx::templates::registry(&[wonnx::templates::TemplateSource {
        name: "pool/reduce.wgsl".to_string(),
        content: "{{ op_type }} {{ axes }} {{ chunks_with_dims_preserved }} {{ o_lens[0] }}"
            .to_string(),
    }])
    .expect("template parses");
    let compiled = compile(&node, &[&input], &[&output], 13, &templates).expect("compiles");
    assert_eq!(compiled.threads, (output.element_count() as u32, 1, 1));
    let axes_text: Vec<String> = expected_axes.iter().map(|a| a.to_string()).collect();
    let chunks_text: Vec<String> = expected_chunks.iter().map(|c| c.to_string()).collect();
    assert_eq!(
        compiled.shader,
        format!(
            "{} [{}] [{}] {}",
            op_name,
            axes_text.join(", "),
            chunks_text.join(", "),
            output.element_count()
        )
    );
}

#[test]
fn reduce() {
    // ReduceSum: sum all
    check_reduce(&[3, 2, 2], None, "ReduceSum", false, &[1], &[0, 1, 2], &[1, 1, 1]);

    // ReduceLogSumExp
    check_reduce(&[3, 2, 2], Some(vec![0]), "ReduceLogSumExp", false, &[3], &[0], &[4, 2, 1]);

    // ReduceLogSum
    check_reduce(&[3, 2, 2], Some(vec![0]), "ReduceLogSum", false, &[3], &[0], &[4, 2, 1]);

    // do_not_keepdims with ReduceL2
    check_reduce(&[3, 2, 2], Some(vec![1]), "ReduceL2", false, &[3, 2], &[1], &[2, 2, 1]);

    // ReduceL2 all axes
    check_reduce(&[3, 2, 2], Some(vec![0, 1, 2]), "ReduceL2", false, &[1], &[0, 1, 2], &[1, 1, 1]);

    // do_not_keepdims with ReduceL1
    check_reduce(&[3, 2, 2], Some(vec![1]), "ReduceL1", false, &[3, 2], &[1], &[2, 2, 1]);

    // do_not_keepdims with ReduceProd
    check_reduce(&[3, 2, 2], Some(vec![1]), "ReduceProd", false, &[3, 2], &[1], &[2, 2, 1]);

    // default_axes_keepdims
    check_reduce(&[3, 2, 2], None, "ReduceMean", true, &[1, 1, 1], &[0, 1, 2], &[1, 1, 1]);

    // do_not_keepdims
    check_reduce(&[3, 2, 2], Some(vec![1]), "ReduceMean", false, &[3, 2], &[1], &[2, 2, 1]);

    // keepdims
    check_reduce(&[3, 2, 2], Some(vec![1]), "ReduceMean", true, &[3, 1, 2], &[1], &[2, 2, 1]);

    // negative_axes_keepdims
    check_reduce(&[3, 2, 2], Some(vec![-2]), "ReduceMean", true, &[3, 1, 2], &[1], &[2, 2, 1]);

    // do_not_keepdims with ReduceSum
    check_reduce(&[3, 2, 2], Some(vec![1]), "ReduceSum", false, &[3, 2], &[1], &[2, 2, 1]);

    // do_not_keepdims with ReduceMin
    check_reduce(&[3, 2, 2], Some(vec![1]), "ReduceMin", false, &[3, 2], &[1], &[2, 2, 1]);

    // do_not_keepdims with ReduceMax
    check_reduce(&[3, 2, 2], Some(vec![1]), "ReduceMax", false, &[3, 2], &[1], &[2, 2, 1]);

    // ReduceSumSquare
    check_reduce(&[3, 2, 2], Some(vec![1]), "ReduceSumSquare", false, &[3, 2], &[1], &[2, 2, 1]);
}

#[test]
fn test_reduce_sum_with_axes_as_input() {
    let node = Node {
        op_type: "ReduceSum".to_string(),
        inputs: vec!["X".to_string(), "A".to_string()],
        outputs: vec!["Y".to_string()],
        attributes: vec![Attribute { name: "keepdims".to_string(), value: AttributeValue::Int(1) }],
    };
    let data = Shape::from(ScalarType::F32, &[3, 2, 2]).expect("dimensions fit");
    let axes = Shape::from(ScalarType::I64, &[1]).expect("dimensions fit");
    let output = Shape::from(ScalarType::F32, &[3, 2]).expect("dimensions fit");
    let template = node_template(&node, &[&data, &axes], &[&output], 13).expect("selects");
    assert_eq!(template.template, "pool/reduce.wgsl");
    assert_eq!(template.threads, (6, 1, 1));
    assert_eq!(template.scalar_type, ScalarType::F32);
    assert_eq!(template.environment.get("i_lens"), Some(&Value::UIntList(vec![12, 1])));
    assert_eq!(template.environment.get("o_lens"), Some(&Value::UIntList(vec![6])));
}
