use wonnx::attributes::{get_attribute, Attribute, AttributeValue, Node, Real};
use wonnx::compiler::{assemble, compile};
use wonnx::environment::{Environment, Value};
use wonnx::error::CompileError;
use wonnx::ops::resize::ratio_text_of;
use wonnx::resource::{buffer_size, padding, resize};
use wonnx::templates::{context_of, render};
use wonnx::text::{decimal_text, list_text_of};
use wonnx::types::{DataTypeError, ScalarType, Shape};

fn attributed(attributes: Vec<(&str, AttributeValue)>) -> Node {
    Node {
        op_type: "Conv".to_string(),
        inputs: vec![],
        outputs: vec![],
        attributes: attributes
            .into_iter()
            .map(|(name, value)| Attribute { name: name.to_string(), value })
            .collect(),
    }
}

#[test]
fn attribute_that_is_present() {
    let node = attributed(vec![
        ("strides", AttributeValue::Ints(vec![2, 3])),
        ("alpha", AttributeValue::Real(Real("0.5".to_string()))),
        ("auto_pad", AttributeValue::Text("SAME_UPPER".to_string())),
        ("group", AttributeValue::Int(4)),
        ("scales", AttributeValue::Reals(vec![Real("1.5".to_string())])),
    ]);
    assert_eq!(get_attribute::<Vec<i64>>("strides", Some(vec![1, 1]), &node).unwrap(), vec![2, 3]);
    assert_eq!(
        get_attribute::<Real>("alpha", None, &node).unwrap(),
        Real("0.5".to_string())
    );
    assert_eq!(get_attribute::<String>("auto_pad", None, &node).unwrap(), "SAME_UPPER");
    assert_eq!(get_attribute::<i64>("group", Some(1), &node).unwrap(), 4);
    assert_eq!(
        get_attribute::<Vec<Real>>("scales", None, &node).unwrap(),
        vec![Real("1.5".to_string())]
    );
}

#[test]
fn attribute_that_is_absent() {
    let node = attributed(vec![("group", AttributeValue::Int(4))]);
    assert_eq!(get_attribute::<i64>("axis", Some(-1), &node).unwrap(), -1);
    assert_eq!(get_attribute::<Vec<i64>>("pads", Some(vec![0, 0]), &node).unwrap(), vec![0, 0]);
    let error = get_attribute::<i64>("axis", None, &node).unwrap_err();
    assert_eq!(error.attribute, "axis");
    assert_eq!(error.op_type, "Conv");
    assert_eq!(error.message(), "did not find attribute 'axis' for node 'Conv'");
}

#[test]
fn first_attribute_of_a_name_wins() {
    let node = attributed(vec![
        ("axis", AttributeValue::Int(1)),
        ("axis", AttributeValue::Int(2)),
    ]);
    assert_eq!(get_attribute::<i64>("axis", None, &node).unwrap(), 1);
}

#[test]
fn attribute_of_another_kind_reads_as_zero() {
    let node = attributed(vec![
        ("axis", AttributeValue::Text("one".to_string())),
        ("mode", AttributeValue::Int(3)),
    ]);
    assert_eq!(get_attribute::<i64>("axis", Some(5), &node).unwrap(), 0);
    assert_eq!(get_attribute::<String>("mode", None, &node).unwrap(), "");
    assert_eq!(get_attribute::<Vec<i64>>("mode", None, &node).unwrap(), Vec::<i64>::new());
    assert_eq!(get_attribute::<Real>("mode", None, &node).unwrap(), Real("0".to_string()));
    assert_eq!(get_attribute::<Vec<Real>>("mode", None, &node).unwrap(), Vec::<Real>::new());
}

#[test]
fn decimal_notation() {
    assert_eq!(decimal_text(0), "0");
    assert_eq!(decimal_text(7), "7");
    assert_eq!(decimal_text(10), "10");
    assert_eq!(decimal_text(-1), "-1");
    assert_eq!(decimal_text(1234567890), "1234567890");
    assert_eq!(decimal_text(i64::MAX), "9223372036854775807");
    assert_eq!(decimal_text(i64::MIN), "-9223372036854775808");
}

#[test]
fn list_notation() {
    assert_eq!(list_text_of(&vec![]), "[]");
    assert_eq!(list_text_of(&vec![5]), "[5]");
    assert_eq!(list_text_of(&vec![1, -2, 30]), "[1, -2, 30]");
}

#[test]
fn ratios_with_two_decimals() {
    assert_eq!(ratio_text_of(8, 4), "2.00");
    assert_eq!(ratio_text_of(6, 4), "1.50");
    assert_eq!(ratio_text_of(2, 6), "0.33");
    assert_eq!(ratio_text_of(4, 6), "0.67");
    assert_eq!(ratio_text_of(1, 8), "0.12");
    assert_eq!(ratio_text_of(3, 8), "0.38");
    assert_eq!(ratio_text_of(0, 5), "0.00");
    assert_eq!(ratio_text_of(-3, 2), "-1.50");
    assert_eq!(ratio_text_of(1999, 1000), "2.00");
    assert_eq!(ratio_text_of(1005, 1000), "1.00");
    assert_eq!(ratio_text_of(1015, 1000), "1.02");
    assert_eq!(ratio_text_of(i64::MAX, 1), "9223372036854775807.00");
    assert_eq!(ratio_text_of(i64::MIN, 1), "-9223372036854775808.00");
    assert_eq!(ratio_text_of(1, u64::MAX), "0.00");
    assert_eq!(ratio_text_of(3, 0), "inf");
    assert_eq!(ratio_text_of(-3, 0), "-inf");
    assert_eq!(ratio_text_of(0, 0), "NaN");
}

#[test]
fn environment_keeps_the_last_binding() {
    let mut environment = Environment::new();
    assert_eq!(environment.get("op_type"), None);
    environment.bind("op_type", Value::Text("Add".to_string()));
    environment.bind("axis", Value::Int(-1));
    environment.bind("op_type", Value::Text("+".to_string()));
    assert_eq!(environment.get("op_type"), Some(&Value::Text("+".to_string())));
    assert_eq!(environment.get("axis"), Some(&Value::Int(-1)));
    assert_eq!(environment.get("axes"), None);
}

#[test]
fn context_holds_every_kind_of_value() {
    let mut environment = Environment::new();
    environment.bind("int", Value::Int(-5));
    environment.bind("uint", Value::UInt(u64::MAX));
    environment.bind("text", Value::Text("vec4<f32>".to_string()));
    environment.bind("ints", Value::IntList(vec![1, -2]));
    environment.bind("uints", Value::UIntList(vec![3, 4]));
    environment.bind("table", Value::UIntTable(vec![vec![1, 2], vec![3]]));
    environment.bind("texts", Value::TextList(vec!["1.00".to_string(), "2.50".to_string()]));
    environment.bind("int", Value::Int(6));
    let context = context_of(&environment);
    assert_eq!(context.get("int").and_then(|v| v.as_i64()), Some(6));
    assert_eq!(context.get("uint").and_then(|v| v.as_u64()), Some(u64::MAX));
    assert_eq!(context.get("text").and_then(|v| v.as_str()), Some("vec4<f32>"));
    assert_eq!(context.get("ints").map(|v| v.to_string()), Some("[1,-2]".to_string()));
    assert_eq!(context.get("uints").map(|v| v.to_string()), Some("[3,4]".to_string()));
    assert_eq!(context.get("table").map(|v| v.to_string()), Some("[[1,2],[3]]".to_string()));
    assert_eq!(
        context.get("texts").map(|v| v.to_string()),
        Some("[\"1.00\",\"2.50\"]".to_string())
    );
    assert!(context.get("other").is_none());

    let templates = wonnx::templates::registry(&[source(
        "all",
        "{{ int }} {{ uint }} {{ text }} {{ ints[1] }} {{ uints }} {{ table[1][0] }} {% for t in texts %}<{{ t }}>{% endfor %}{{texts.1}}",
    )])
    .unwrap();
    assert_eq!(
        render(&templates, "all", &environment).unwrap(),
        "6 18446744073709551615 vec4<f32> -2 [3, 4] 3 <1.00><2.50>2.50"
    );
}

#[test]
fn rendering_fails_for_an_unbound_variable() {
    let templates = wonnx::templates::registry(&[source("needs", "{{ missing }}")]).unwrap();
    let message = render(&templates, "needs", &Environment::new()).unwrap_err();
    assert!(message.contains("needs"));
}

#[test]
fn assembling_a_compiled_node() {
    let compiled = assemble((3, 2, 1), Ok("shader".to_string())).unwrap();
    assert_eq!(compiled.shader, "shader");
    assert_eq!(compiled.threads, (3, 2, 1));
    match assemble((3, 2, 1), Err("no template".to_string())) {
        Err(CompileError::TemplateError(message)) => assert_eq!(message, "no template"),
        other => panic!("expected a template error, got {:?}", other),
    }
}

#[test]
fn compile_returns_the_error_of_the_selection() {
    let templates = wonnx::templates::registry(&[]).unwrap();
    let node = attributed(vec![]);
    let shape = Shape::from(ScalarType::F32, &[1, 2, 3, 4]).unwrap();
    match compile(&node, &[&shape], &[&shape], 13, &templates) {
        Err(CompileError::AttributeNotFound(e)) => assert_eq!(e.attribute, "kernel_shape"),
        other => panic!("expected a missing attribute, got {:?}", other),
    }
}

#[test]
fn rendered_shader_names_the_scalar_type() {
    let templates = wonnx::templates::registry(&[source(
        "endomorphism/activation.wgsl",
        "var<storage> x: array<vec4<{{ scalar_type }}>>; // {{ op_type }} alpha={{ alpha }} stride={{ vec4_stride }}",
    )])
    .unwrap();
    let node = Node {
        op_type: "Relu".to_string(),
        inputs: vec![],
        outputs: vec![],
        attributes: vec![],
    };
    for (data_type, name, stride) in
        [(ScalarType::F32, "f32", 16), (ScalarType::I32, "i32", 16), (ScalarType::I64, "i64", 32)]
    {
        let shape = Shape::from(data_type, &[16]).unwrap();
        let compiled = compile(&node, &[&shape], &[&shape], 13, &templates).unwrap();
        assert!(!compiled.shader.is_empty());
        assert_eq!(
            compiled.shader,
            format!(
                "var<storage> x: array<vec4<{}>>; // Relu alpha=1 stride={}",
                name, stride
            )
        );
    }
}

#[test]
fn messages() {
    let cases = [
        (
            CompileError::DimensionsMissing("X".to_string(), "conv1".to_string()),
            "dimensions information missing for input/output 'X' of node 'conv1'. You may want to run onnx-simplifier on the model first.",
        ),
        (CompileError::InvalidOperation("Reshape".to_string()), "operation not recognized: Reshape"),
        (
            CompileError::UnimplementedOp("Sum".to_string()),
            "op Sum is not implemented yet! Check the README if you want to implement it",
        ),
        (
            CompileError::UnimplementedVariant { variant: "axis=2".to_string(), op: "Gather".to_string() },
            "'axis=2' is not yet implemented for op Gather",
        ),
        (CompileError::UnsupportedOpsetVersion(16), "the opset version 16 is not supported"),
        (
            CompileError::InvalidAttributeValue {
                attribute: "axis".to_string(),
                value: "-3".to_string(),
                opset_version: 11,
            },
            "the value '-3' is invalid for attribute 'axis' (opset version 11)",
        ),
        (
            CompileError::InvalidInputShape {
                input_index: 2,
                input_shape: Shape::from(ScalarType::I64, &[3, 1]).unwrap(),
            },
            "input 2 has invalid shape 3x1:i64",
        ),
        (
            CompileError::ComputeLimitExceeded("workgroup size".to_string(), 257, 256),
            "the model exceeds the limit for workgroup size: 257 > 256",
        ),
        (
            CompileError::TypesDisagree(ScalarType::F32, ScalarType::I32),
            "cannot determine data type to use: f32 or i32",
        ),
        (CompileError::TypeUnderspecified, "cannot infer data type to use"),
        (
            CompileError::InvalidType(DataTypeError::NotSupported(11)),
            "invalid type encountered: the ONNX scalar data type '11' is not supported",
        ),
        (
            CompileError::InvalidType(DataTypeError::NotRecognized(-4)),
            "invalid type encountered: the ONNX data type '-4' is not recognized",
        ),
        (
            CompileError::TemplateError("no such template".to_string()),
            "failed to render shader: no such template",
        ),
    ];
    for (error, expected) in cases {
        assert_eq!(error.message(), expected);
    }
}

#[test]
fn errors_convert() {
    let missing = get_attribute::<i64>("to", None, &attributed(vec![])).unwrap_err();
    match CompileError::from(missing) {
        CompileError::AttributeNotFound(e) => assert_eq!(e.attribute, "to"),
        other => panic!("expected a missing attribute, got {:?}", other),
    }
    match CompileError::from(DataTypeError::NotSupported(8)) {
        CompileError::InvalidType(DataTypeError::NotSupported(8)) => {}
        other => panic!("expected an invalid type, got {:?}", other),
    }
}

#[test]
fn buffers_have_a_least_size() {
    assert_eq!(buffer_size(0), 16);
    assert_eq!(buffer_size(15), 16);
    assert_eq!(buffer_size(16), 16);
    assert_eq!(buffer_size(17), 17);
    assert_eq!(buffer_size(4096), 4096);
}

#[test]
fn short_arrays_are_resized() {
    assert_eq!(resize(Vec::<f32>::new(), 0.0), Vec::<f32>::new());
    assert_eq!(resize(vec![1.0], 0.0), vec![1.0, 0.0, 0.0, 0.0]);
    assert_eq!(resize(vec![1, 2], 0), vec![1, 2, 0, 0]);
    assert_eq!(resize(vec![1, 2, 3], 9), vec![1, 2, 3, 9]);
    assert_eq!(resize(vec![1.0, 2.0, 3.0, 4.0], 0.0), vec![1.0, 2.0, 3.0, 4.0]);
    assert_eq!(resize(vec![1, 2, 3, 4, 5], 0), vec![1, 2, 3, 4, 5]);
}

#[test]
fn padding_of_chunks() {
    assert_eq!(padding(&[1, 2, 3, 4, 5, 6], 3, 1), vec![1, 2, 3, 0, 4, 5, 6, 0]);
    assert_eq!(padding(&[1, 2, 3, 4, 5, 6], 2, 2), vec![1, 2, 0, 0, 3, 4, 0, 0, 5, 6, 0, 0]);
    assert_eq!(padding(&[1, 2, 3, 4, 5], 2, 1), vec![1, 2, 0, 3, 4, 0]);
    assert_eq!(padding(&[1, 2, 3], 3, 0), vec![1, 2, 3]);
    assert_eq!(padding(&[1, 2], 3, 4), Vec::<u8>::new());
    assert_eq!(padding(&[], 1, 1), Vec::<u8>::new());
}

#[test]
fn literals_with_two_decimals() {
    let cases = [
        ("2", "2.00"),
        ("2.5", "2.50"),
        ("2.50", "2.50"),
        ("0.125", "0.12"),
        ("0.375", "0.38"),
        ("0.335", "0.34"),
        ("0.345", "0.34"),
        ("0.3450", "0.34"),
        ("0.34500001", "0.35"),
        ("0.3449999988079071", "0.34"),
        ("0.346", "0.35"),
        ("0.344", "0.34"),
        ("0.999", "1.00"),
        ("9.995", "10.00"),
        ("99.994999", "99.99"),
        ("-0.001", "-0.00"),
        ("-1.255", "-1.26"),
        ("-12", "-12.00"),
        ("1.", "1.00"),
        ("007.1", "7.10"),
        ("0", "0.00"),
        ("5192296858534827628530496329220095.999", "5192296858534827628530496329220096.00"),
    ];
    for (literal, expected) in cases {
        assert_eq!(wonnx::decimal::two_decimals_of(literal), expected, "{}", literal);
    }
    let kept = [
        "", "-", ".5", "-.5", "NaN", "inf", "-inf", "1e5", "1.2.3", "1,5", "+1", " 1", "1 ",
        "0x10", "1.5f", "5192296858534827628530496329220096", "١٢",
    ];
    for literal in kept {
        assert_eq!(wonnx::decimal::two_decimals_of(literal), literal);
    }
}

#[test]
fn digits_of_characters() {
    assert_eq!(wonnx::decimal::digit_of('0'), Some(0));
    assert_eq!(wonnx::decimal::digit_of('7'), Some(7));
    assert_eq!(wonnx::decimal::digit_of('9'), Some(9));
    assert_eq!(wonnx::decimal::digit_of('a'), None);
    assert_eq!(wonnx::decimal::digit_of('.'), None);
}

fn source(name: &str, content: &str) -> wonnx::templates::TemplateSource {
    wonnx::templates::TemplateSource { name: name.to_string(), content: content.to_string() }
}

#[test]
fn registry_holds_the_given_templates() {
    let templates = wonnx::templates::registry(&[
        source("structs.wgsl", "struct Block { data: array<{{ scalar_type }}> };"),
        source("endomorphism/map.wgsl", "fn main() { let x = {{ i_lens[0] }}u; } // {{ op_type }}"),
    ])
    .unwrap();
    let mut names: Vec<&str> = templates.get_template_names().collect();
    names.sort();
    assert_eq!(names, vec!["endomorphism/map.wgsl", "structs.wgsl"]);
    let node = Node {
        op_type: "Cos".to_string(),
        inputs: vec![],
        outputs: vec![],
        attributes: vec![],
    };
    let shape = Shape::from(ScalarType::I32, &[4]).unwrap();
    let compiled = compile(&node, &[&shape], &[&shape], 13, &templates).unwrap();
    assert_eq!(compiled.shader, "fn main() { let x = 4u; } // Cos");
    assert_eq!(
        render(&templates, "structs.wgsl", &wonnx::compiler::node_template(&node, &[&shape], &[&shape], 13).unwrap().environment).unwrap(),
        "struct Block { data: array<i32> };"
    );
    assert!(wonnx::templates::registry(&[]).unwrap().get_template_names().next().is_none());
}

#[test]
fn registry_keeps_the_last_source_of_a_name() {
    let templates =
        wonnx::templates::registry(&[source("a", "first"), source("b", "other"), source("a", "second")])
            .unwrap();
    assert_eq!(templates.get_template_names().count(), 2);
    assert_eq!(render(&templates, "a", &Environment::new()).unwrap(), "second");
    assert_eq!(render(&templates, "b", &Environment::new()).unwrap(), "other");
    assert!(render(&templates, "c", &Environment::new()).is_err());
}

#[test]
fn registry_reports_a_source_that_does_not_parse() {
    match wonnx::templates::registry(&[source("good", "fine"), source("bad", "{{ a..b }}")]) {
        Err(CompileError::TemplateError(message)) => assert!(message.contains("bad")),
        Ok(_) => panic!("expected a template error"),
        Err(other) => panic!("expected a template error, got {:?}", other),
    }
}

#[test]
fn catalog_names_every_selected_template() {
    let names = wonnx::templates::template_names();
    assert_eq!(names.len(), 22);
    for name in [
        "endomorphism/activation.wgsl",
        "endomorphism/arithmetic.wgsl",
        "endomorphism/batchnormalization.wgsl",
        "endomorphism/softmax.wgsl",
        "endomorphism/map.wgsl",
        "endomorphism/cast.wgsl",
        "endomorphism/gather.wgsl",
        "endomorphism/onehot.wgsl",
        "matrix/concat.wgsl",
        "matrix/gemm_1.wgsl",
        "matrix/gemm.wgsl",
        "matrix/resize.wgsl",
        "matrix/split.wgsl",
        "matrix/transpose.wgsl",
        "pool/aggregate.wgsl",
        "pool/conv_kernel_1.wgsl",
        "pool/conv_kernel_3.wgsl",
        "pool/conv.wgsl",
        "pool/reduce.wgsl",
        "structs.wgsl",
        "snippets/activation_vec.wgsl",
        "snippets/activation_scalar.wgsl",
    ] {
        assert!(names.contains(&name), "{}", name);
    }
    let shape = Shape::from(ScalarType::F32, &[1, 16, 8, 8]).unwrap();
    for op in ["Sqrt", "Add", "Relu", "Softmax", "Concat", "Transpose", "ReduceSum", "MatMul", "Split", "BatchNormalization", "GlobalAveragePool"] {
        let node = Node {
            op_type: op.to_string(),
            inputs: vec![],
            outputs: vec![],
            attributes: vec![],
        };
        if let Ok(template) = wonnx::compiler::node_template(&node, &[&shape, &shape], &[&shape], 13) {
            assert!(names.contains(&template.template), "{}", op);
        }
    }
}

#[test]
fn outcome_of_a_rendering() {
    assert_eq!(
        wonnx::templates::text_or_message(Ok("fn main() {}".to_string())),
        Ok("fn main() {}".to_string())
    );
    assert_eq!(wonnx::templates::text_or_message(Ok(String::new())), Ok(String::new()));
    assert_eq!(
        wonnx::templates::text_or_message(Err(tera::Error::msg("no such filter"))),
        Err("no such filter".to_string())
    );
}

#[test]
fn registry_refuses_a_source_that_is_not_plain() {
    for content in [
        "{{ 1.5 }}",
        "{{ a + b }}",
        "{{ a | upper }}",
        "{{ range(end=3) }}",
        "{{ a[b] }}",
        "{{ a }",
        "{{ a",
        "{% include \"structs.wgsl\" %}",
        "{% set a = b %}",
        "{% if a is defined %}x{% endif %}",
        "{% if a in b %}x{% endif %}",
        "{% if a % 2 == 0 %}x{% endif %}",
        "{% if a == 1.5 %}x{% endif %}",
        "{% for k, v in c %}x{% endfor %}",
        "{% for x in range(end=3) %}x{% endfor %}",
        "{% if x %}",
        "{% endif %}",
        "{% raw %}{% endraw %}",
        "{% macro m() %}{% endmacro %}",
    ] {
        match wonnx::templates::registry(&[source("good", "{{ a }}"), source("other", content)]) {
            Err(CompileError::TemplateError(message)) => assert_eq!(
                message,
                "template 'other' holds a tag that is not plain",
                "{}",
                content
            ),
            Ok(_) => panic!("expected {} to be refused", content),
            Err(other) => panic!("expected a template error, got {:?}", other),
        }
    }
    let first = wonnx::templates::registry(&[
        source("a", "{{ x }}"),
        source("b", "{% raw %}"),
        source("c", "{{ 2 * 3 }}"),
    ]);
    match first {
        Err(CompileError::TemplateError(message)) => {
            assert_eq!(message, "template 'b' holds a tag that is not plain")
        }
        _ => panic!("expected a template error"),
    }
}

#[test]
fn plain_sources() {
    let deep = "{% if a %}".repeat(16) + &"{% endif %}".repeat(16);
    for content in [
        "",
        "fn main() { let a = vec4<f32>(1.0) * 2.0 + x[0] / 3.0 % 2.0; }",
        "{{ a }}",
        "{{a}}",
        "{{-a-}}",
        "{{\t a_1.b.c[0][12].d \n}}",
        "{ {{ _x }} } }} {",
        "{{ x.0 }}{{ y }}",
        "a { b } c {",
        "{# any # thing {{ a + 1 }} {% include %} #}",
        "{% if a %}x{% endif %}",
        "{%- if not a and b == 1 or c != \"Relu\" -%}x{%- elif d[0] <= -3 -%}y{% else %}z{%- endif -%}",
        "{% for x in i_shape %}{% for y in x %}{{ y }}{% else %}none{% endfor %}{% endfor %}",
        "{% if a >= b %}{% for c in d.e %}{{ loop.index0 }}{% endfor %}{% endif %}",
        deep.as_str(),
    ] {
        assert!(wonnx::plain::is_plain(content), "{}", content);
    }
    let deeper = "{% if a %}".repeat(17) + &"{% endif %}".repeat(17);
    let long = format!("{{% if a{} %}}x{{% endif %}}", " and a".repeat(15));
    assert!(wonnx::plain::is_plain(&long));
    let longer = format!("{{% if a{} %}}x{{% endif %}}", " and a".repeat(16));
    assert!(!wonnx::plain::is_plain(&longer));
    for content in [
        "{{",
        "{{ }}",
        "{{ 1 }}",
        "{{ a b }}",
        "{{ a-b }}",
        "{{ a[] }}",
        "{{ a[x] }}",
        "{{ a[\"k\"] }}",
        "{{ is }}",
        "{{ a }} {% else %}",
        "{#",
        "{# a # }",
        "{{ a(1) }}",
        "{{ é }}",
        "{{{ a }}}",
        "{% if %}x{% endif %}",
        "{% if a==b %}x{% endif %}",
        "{% if a == \"two words\" %}x{% endif %}",
        "{% if a == 'b' %}x{% endif %}",
        "{% for x y in z %}{% endfor %}",
        "{% for x in %}{% endfor %}",
        "{% endfor x %}",
        "{% if a %}{% endfor",
        "{% if a %}x",
        "{% IF a %}x{% endif %}",
        deeper.as_str(),
    ] {
        assert!(!wonnx::plain::is_plain(content), "{}", content);
    }
}

#[test]
fn characters_of_a_text() {
    assert_eq!(wonnx::plain::chars_of(""), Vec::<char>::new());
    assert_eq!(wonnx::plain::chars_of("a{é"), vec!['a', '{', 'é']);
}

#[test]
fn conditions_and_loops_render() {
    let templates = wonnx::templates::registry(&[source(
        "shader",
        "{%- for row in table -%}\n[{% for x in row %}{{ x }}{% if not loop.last %},{% endif %}{% endfor %}]\n{%- endfor %} {% if op == \"Relu\" %}relu{% elif n > 3 %}big{% else %}other{% endif %}",
    )])
    .unwrap();
    let mut environment = Environment::new();
    environment.bind("table", Value::UIntTable(vec![vec![1, 2], vec![], vec![3]]));
    environment.bind("op", Value::Text("Relu".to_string()));
    environment.bind("n", Value::Int(2));
    assert_eq!(render(&templates, "shader", &environment).unwrap(), "[1,2][][3] relu");
    environment.bind("op", Value::Text("Elu".to_string()));
    assert_eq!(render(&templates, "shader", &environment).unwrap(), "[1,2][][3] other");
    environment.bind("n", Value::Int(4));
    assert_eq!(render(&templates, "shader", &environment).unwrap(), "[1,2][][3] big");
    environment.bind("n", Value::Text("four".to_string()));
    assert!(render(&templates, "shader", &environment).is_err());
}

#[test]
fn values_that_are_not_simple_are_not_rendered() {
    let templates = wonnx::templates::registry(&[source(
        "letters",
        "{% for c in text %}<{{ c }}>{% endfor %}",
    )])
    .unwrap();
    let mut environment = Environment::new();
    environment.bind("text", Value::Text("a b\n".to_string()));
    assert!(environment.is_simple());
    assert_eq!(render(&templates, "letters", &environment).unwrap(), "<a>< ><b><\n>");
    for text in ["a\r\n", "e\u{301}", "größe", "\u{7f}"] {
        let mut environment = Environment::new();
        environment.bind("text", Value::Text(text.to_string()));
        assert!(!environment.is_simple());
        assert_eq!(
            render(&templates, "letters", &environment),
            Err("a variable holds a character that cannot be rendered".to_string())
        );
        environment.bind("text", Value::Int(1));
        assert!(environment.is_simple());
        let mut listed = Environment::new();
        listed.bind("names", Value::TextList(vec!["ok".to_string(), text.to_string()]));
        assert!(!listed.is_simple());
    }
    assert!(wonnx::environment::text_is_simple("vec4<f32> ~ {}"));
    assert!(Value::UIntTable(vec![vec![1]]).is_simple());
    assert!(!Value::Text("\r".to_string()).is_simple());
}

#[test]
fn compiling_with_sources() {
    let node = Node {
        op_type: "Tanh".to_string(),
        inputs: vec![],
        outputs: vec![],
        attributes: vec![],
    };
    let shape = Shape::from(ScalarType::F32, &[3, 3]).unwrap();
    let sources = [source("endomorphism/map.wgsl", "{{ op_type }}({{ scalar_type }}) x{{ o_lens[0] }}")];
    let compiled =
        wonnx::compiler::compile_with_sources(&node, &[&shape], &[&shape], 13, &sources).unwrap();
    assert_eq!(compiled.shader, "Tanh(f32) x9");
    assert_eq!(compiled.threads, (3, 1, 1));

    let unknown = Node { op_type: "Sum".to_string(), ..node.clone() };
    let refused = [source("endomorphism/map.wgsl", "{{ o_lens[0] / 4 }}")];
    match wonnx::compiler::compile_with_sources(&unknown, &[&shape], &[&shape], 13, &refused) {
        Err(CompileError::UnimplementedOp(op)) => assert_eq!(op, "Sum"),
        other => panic!("expected an unimplemented operator, got {:?}", other),
    }
    match wonnx::compiler::compile_with_sources(&node, &[&shape], &[&shape], 13, &refused) {
        Err(CompileError::TemplateError(message)) => assert_eq!(
            message,
            "template 'endomorphism/map.wgsl' holds a tag that is not plain"
        ),
        other => panic!("expected a template error, got {:?}", other),
    }
    match wonnx::compiler::compile_with_sources(&node, &[&shape], &[&shape], 13, &[]) {
        Err(CompileError::TemplateError(message)) => {
            assert!(message.contains("endomorphism/map.wgsl"))
        }
        other => panic!("expected a template error, got {:?}", other),
    }
}
