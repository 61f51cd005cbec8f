//! What the selection of a template for a node results in, and the steps that
//! all operators share: the variables bound for every node, the element type
//! that the operands agree on, and the check against the limits of a dispatch.

use crate::attributes::{attribute_of, get_attribute, AttributeType, Node, NodeView, Real};
use crate::environment::{table, Bindings, Environment, Value, ValueView};
use crate::error::{CompileError, CompileErrorView};
use crate::types::{
    chunk_vector,
    element_count,
    multi_type_stride,
    numbers,
    scalar_name,
    scalar_stride,
    MultiType,
    ScalarType,
    Shape,
    ShapeView,
};
use crate::workgroup::{saturated, MAX_COMPUTE_WORKGROUPS_PER_DIMENSION};
use vstd::prelude::*;
use vstd::string::*;

verus! {

/// The template chosen for a node: the element type of its shader, the name of
/// the template, the number of workgroups to dispatch in each dimension, and
/// the variables that the template is rendered with.
#[derive(Debug)]
pub struct NodeTemplate {
    pub scalar_type: ScalarType,
    pub template: &'static str,
    pub threads: (u32, u32, u32),
    pub environment: Environment,
}

/// The mathematical value of a selected template.
pub struct NodeTemplateView {
    pub scalar_type: ScalarType,
    pub template: Seq<char>,
    pub threads: (int, int, int),
    pub bindings: Bindings,
}

impl View for NodeTemplate {
    type V = NodeTemplateView;

    open spec fn view(&self) -> NodeTemplateView {
        NodeTemplateView {
            scalar_type: self.scalar_type,
            template: self.template@,
            threads: (self.threads.0 as int, self.threads.1 as int, self.threads.2 as int),
            bindings: self.environment@,
        }
    }
}

/// The template selected for a node by the rule of its family, before the
/// extent of the dispatch is held against the limits of a device.
#[derive(Debug)]
pub struct Selection {
    pub scalar_type: ScalarType,
    pub template: &'static str,
    pub threads: (u128, u128, u128),
    pub environment: Environment,
}

impl View for Selection {
    type V = NodeTemplateView;

    open spec fn view(&self) -> NodeTemplateView {
        NodeTemplateView {
            scalar_type: self.scalar_type,
            template: self.template@,
            threads: (self.threads.0 as int, self.threads.1 as int, self.threads.2 as int),
            bindings: self.environment@,
        }
    }
}

/// Whether a selection is the one that a specification gives.
pub open spec fn selects(
    r: Result<Selection, CompileError>,
    expected: Result<NodeTemplateView, CompileErrorView>,
) -> bool {
    match expected {
        Ok(template) => r is Ok && r->Ok_0@ == template,
        Err(e) => r is Err && r->Err_0@ == e,
    }
}

/// Whether a result is the one that a specification gives.
pub open spec fn matches_selection(
    r: Result<NodeTemplate, CompileError>,
    expected: Result<NodeTemplateView, CompileErrorView>,
) -> bool {
    match expected {
        Ok(template) => r is Ok && r->Ok_0@ == template,
        Err(e) => r is Err && r->Err_0@ == e,
    }
}

/// The mathematical values of a list of shapes.
pub open spec fn shape_views(shapes: Seq<&Shape>) -> Seq<ShapeView> {
    Seq::new(shapes.len(), |i: int| shapes[i]@)
}

/// The element count of each shape.
pub open spec fn lengths(shapes: Seq<ShapeView>) -> Seq<int> {
    Seq::new(shapes.len(), |i: int| element_count(shapes[i].dims))
}

/// The dimensions of each shape.
pub open spec fn dims_of(shapes: Seq<ShapeView>) -> Seq<Seq<int>> {
    Seq::new(shapes.len(), |i: int| shapes[i].dims)
}

/// The chunk vector of each shape.
pub open spec fn chunks_of(shapes: Seq<ShapeView>) -> Seq<Seq<int>> {
    Seq::new(shapes.len(), |i: int| chunk_vector(shapes[i].dims))
}

/// The variables bound for every node.
pub open spec fn common_bindings(
    node: NodeView,
    inputs: Seq<ShapeView>,
    outputs: Seq<ShapeView>,
    opset_version: i64,
) -> Bindings {
    Bindings::empty().insert("i_lens"@, ValueView::numbers(lengths(inputs))).insert(
        "o_lens"@,
        ValueView::numbers(lengths(outputs)),
    ).insert("i_shape"@, ValueView::rows(dims_of(inputs))).insert(
        "o_shape"@,
        ValueView::rows(dims_of(outputs)),
    ).insert("i_chunks"@, ValueView::rows(chunks_of(inputs))).insert(
        "o_chunks"@,
        ValueView::rows(chunks_of(outputs)),
    ).insert("op_type"@, ValueView::Text(node.op_type)).insert(
        "opset_version"@,
        ValueView::Number(opset_version as int),
    )
}

/// The variables that give the chosen element type and the strides of the
/// types built from it, added to those bound before.
pub open spec fn scalar_bindings(bindings: Bindings, t: ScalarType) -> Bindings {
    bindings.insert("scalar_type"@, ValueView::Text(scalar_name(t))).insert(
        "scalar_stride"@,
        ValueView::Number(scalar_stride(t)),
    ).insert("vec4_stride"@, ValueView::Number(multi_type_stride(MultiType::Vec(t, 4)))).insert(
        "mat4x4_stride"@,
        ValueView::Number(multi_type_stride(MultiType::Mat(t, 4, 4))),
    ).insert("mat3x3_stride"@, ValueView::Number(48))
}

/// The error for a dispatch that asks for more workgroups in a dimension than
/// a device offers.
pub open spec fn over_limit(what: Seq<char>, requested: int) -> CompileErrorView {
    CompileErrorView::ComputeLimitExceeded(
        what,
        saturated(requested),
        MAX_COMPUTE_WORKGROUPS_PER_DIMENSION,
    )
}

/// The last steps of a selection: the number of workgroups in each dimension is
/// held against the limit, in the order x, y, z, and the variables of the
/// element type are bound.
pub open spec fn finished(selection: Result<NodeTemplateView, CompileErrorView>) -> Result<
    NodeTemplateView,
    CompileErrorView,
> {
    match selection {
        Err(e) => Err(e),
        Ok(template) => if template.threads.0 > MAX_COMPUTE_WORKGROUPS_PER_DIMENSION {
            Err(over_limit("X threads"@, template.threads.0))
        } else if template.threads.1 > MAX_COMPUTE_WORKGROUPS_PER_DIMENSION {
            Err(over_limit("Y threads"@, template.threads.1))
        } else if template.threads.2 > MAX_COMPUTE_WORKGROUPS_PER_DIMENSION {
            Err(over_limit("Z threads"@, template.threads.2))
        } else {
            Ok(
                NodeTemplateView {
                    bindings: scalar_bindings(template.bindings, template.scalar_type),
                    ..template
                },
            )
        },
    }
}

/// Every selection that passes the last steps binds the variable
/// `scalar_type` to the name of its element type in shader source, so that a
/// template can write it.
pub proof fn lemma_scalar_type_is_bound(selection: Result<NodeTemplateView, CompileErrorView>)
    requires
        finished(selection) is Ok,
    ensures
        finished(selection)->Ok_0.bindings.dom().contains("scalar_type"@),
        finished(selection)->Ok_0.bindings["scalar_type"@] == ValueView::Text(
            scalar_name(finished(selection)->Ok_0.scalar_type),
        ),
{
    reveal_strlit("scalar_type");
    reveal_strlit("scalar_stride");
    reveal_strlit("vec4_stride");
    reveal_strlit("mat4x4_stride");
    reveal_strlit("mat3x3_stride");
    assert("scalar_type"@.len() != "scalar_stride"@.len());
    assert("scalar_type"@[0] != "vec4_stride"@[0]);
    assert("scalar_type"@.len() != "mat4x4_stride"@.len());
    assert("scalar_type"@.len() != "mat3x3_stride"@.len());
}

/// The element type that the shapes from position `from` on share with
/// `first`, or the first disagreement with it.
pub open spec fn agreement_from(shapes: Seq<ShapeView>, first: ScalarType, from: int) -> Result<
    ScalarType,
    CompileErrorView,
>
    decreases shapes.len() - from,
{
    if from < 0 || from >= shapes.len() {
        Ok(first)
    } else if shapes[from].data_type != first {
        Err(CompileErrorView::TypesDisagree(first, shapes[from].data_type))
    } else {
        agreement_from(shapes, first, from + 1)
    }
}

/// The element type that all inputs and outputs share. Where two differ, the
/// error names the type of the first shape and the first type that differs
/// from it, inputs before outputs; where there is no shape, no type is given.
pub open spec fn agreed(inputs: Seq<ShapeView>, outputs: Seq<ShapeView>) -> Result<
    ScalarType,
    CompileErrorView,
> {
    let all = inputs + outputs;
    if all.len() == 0 {
        Err(CompileErrorView::TypeUnderspecified)
    } else {
        agreement_from(all, all[0].data_type, 1)
    }
}

/// An agreed element type is the type of every shape; a disagreement names the
/// type of the first shape and a different type that a later shape has.
pub proof fn lemma_agreement(shapes: Seq<ShapeView>, first: ScalarType, from: int)
    requires
        0 <= from,
    ensures
        match agreement_from(shapes, first, from) {
            Ok(t) => t == first && forall|i: int|
                from <= i < shapes.len() ==> (#[trigger] shapes[i]).data_type == first,
            Err(e) => exists|i: int|
                from <= i < shapes.len() && (#[trigger] shapes[i]).data_type != first && e
                    == CompileErrorView::TypesDisagree(first, shapes[i].data_type),
        },
    decreases shapes.len() - from,
{
    if from < shapes.len() {
        if shapes[from].data_type == first {
            lemma_agreement(shapes, first, from + 1);
        }
    }
}

/// Returns the element type of the input and output shapes, or an error where
/// these types differ or no shape is given.
pub fn agreed_type(input_shapes: &[&Shape], output_shapes: &[&Shape]) -> (r: Result<
    ScalarType,
    CompileError,
>)
    ensures
        match agreed(shape_views(input_shapes@), shape_views(output_shapes@)) {
            Ok(t) => r is Ok && r->Ok_0 == t,
            Err(e) => r is Err && r->Err_0@ == e,
        },
{
    let ghost all = shape_views(input_shapes@) + shape_views(output_shapes@);
    let ghost n = input_shapes@.len() as int;
    let mut data_type: Option<ScalarType> = None;
    let mut i: usize = 0;
    while i < input_shapes.len()
        invariant
            i <= input_shapes.len(),
            n == input_shapes@.len(),
            all == shape_views(input_shapes@) + shape_views(output_shapes@),
            i == 0 ==> data_type is None,
            i > 0 ==> data_type == Some(all[0].data_type) && agreement_from(
                all,
                all[0].data_type,
                1,
            ) == agreement_from(all, all[0].data_type, i as int),
        decreases input_shapes.len() - i,
    {
        let input_type = input_shapes[i].data_type();
        assert(all[i as int] == input_shapes@[i as int]@);
        match data_type {
            Some(dt) => {
                if dt != input_type {
                    return Err(CompileError::TypesDisagree(dt, input_type));
                }
            },
            None => {
                data_type = Some(input_type);
            },
        }
        i += 1;
    }
    let mut j: usize = 0;
    while j < output_shapes.len()
        invariant
            j <= output_shapes.len(),
            n == input_shapes@.len(),
            all == shape_views(input_shapes@) + shape_views(output_shapes@),
            n + j == 0 ==> data_type is None,
            n + j > 0 ==> data_type == Some(all[0].data_type) && agreement_from(
                all,
                all[0].data_type,
                1,
            ) == agreement_from(all, all[0].data_type, n + j),
        decreases output_shapes.len() - j,
    {
        let output_type = output_shapes[j].data_type();
        assert(all[n + j] == output_shapes@[j as int]@);
        match data_type {
            Some(dt) => {
                if dt != output_type {
                    return Err(CompileError::TypesDisagree(dt, output_type));
                }
            },
            None => {
                data_type = Some(output_type);
            },
        }
        j += 1;
    }
    match data_type {
        Some(t) => Ok(t),
        None => Err(CompileError::TypeUnderspecified),
    }
}

/// The element count of each shape.
pub fn lengths_of(shapes: &[&Shape]) -> (r: Vec<u64>)
    ensures
        numbers(r@) == lengths(shape_views(shapes@)),
{
    let mut out: Vec<u64> = Vec::new();
    let mut i: usize = 0;
    while i < shapes.len()
        invariant
            i <= shapes.len(),
            out@.len() == i,
            forall|j: int| 0 <= j < i ==> out@[j] as int == element_count(shapes@[j]@.dims),
        decreases shapes.len() - i,
    {
        out.push(shapes[i].element_count());
        i += 1;
    }
    assert(numbers(out@) =~= lengths(shape_views(shapes@)));
    out
}

/// The dimensions of each shape.
pub fn dims_table_of(shapes: &[&Shape]) -> (r: Vec<Vec<u64>>)
    ensures
        table(r@) == dims_of(shape_views(shapes@)),
{
    let mut out: Vec<Vec<u64>> = Vec::new();
    let mut i: usize = 0;
    while i < shapes.len()
        invariant
            i <= shapes.len(),
            out@.len() == i,
            forall|j: int| 0 <= j < i ==> numbers(out@[j]@) == shapes@[j]@.dims,
        decreases shapes.len() - i,
    {
        let source = shapes[i].dims();
        let dims = source.clone();
        assert(dims@ =~= source@);
        out.push(dims);
        i += 1;
    }
    assert(table(out@) =~= dims_of(shape_views(shapes@)));
    out
}

/// The chunk vector of each shape.
pub fn chunks_table_of(shapes: &[&Shape]) -> (r: Vec<Vec<u64>>)
    ensures
        table(r@) == chunks_of(shape_views(shapes@)),
{
    let mut out: Vec<Vec<u64>> = Vec::new();
    let mut i: usize = 0;
    while i < shapes.len()
        invariant
            i <= shapes.len(),
            out@.len() == i,
            forall|j: int| 0 <= j < i ==> numbers(out@[j]@) == chunk_vector(shapes@[j]@.dims),
        decreases shapes.len() - i,
    {
        out.push(shapes[i].chunks());
        i += 1;
    }
    assert(table(out@) =~= chunks_of(shape_views(shapes@)));
    out
}

/// Binds the variables that every node has.
pub fn common_environment(
    node: &Node,
    input_shapes: &[&Shape],
    output_shapes: &[&Shape],
    opset_version: i64,
) -> (r: Environment)
    ensures
        r@ == common_bindings(
            node@,
            shape_views(input_shapes@),
            shape_views(output_shapes@),
            opset_version,
        ),
{
    let mut environment = Environment::new();
    environment.bind("i_lens", Value::UIntList(lengths_of(input_shapes)));
    environment.bind("o_lens", Value::UIntList(lengths_of(output_shapes)));
    environment.bind("i_shape", Value::UIntTable(dims_table_of(input_shapes)));
    environment.bind("o_shape", Value::UIntTable(dims_table_of(output_shapes)));
    environment.bind("i_chunks", Value::UIntTable(chunks_table_of(input_shapes)));
    environment.bind("o_chunks", Value::UIntTable(chunks_table_of(output_shapes)));
    environment.bind("op_type", Value::Text(node.op_type.clone()));
    environment.bind("opset_version", Value::Int(opset_version));
    environment
}

/// What reading an attribute gives, an absent attribute without a default
/// being a reason not to compile.
pub open spec fn attribute<T: AttributeType>(
    node: NodeView,
    name: Seq<char>,
    default: Option<T::V>,
) -> Result<T::V, CompileErrorView> {
    match attribute_of::<T>(node, name, default) {
        Ok(value) => Ok(value),
        Err(e) => Err(CompileErrorView::AttributeNotFound(e)),
    }
}

/// Reads an attribute as an integer.
pub fn int_attribute(name: &str, default: Option<i64>, node: &Node) -> (r: Result<
    i64,
    CompileError,
>)
    ensures
        match attribute::<i64>(node@, name@, default) {
            Ok(value) => r is Ok && r->Ok_0 == value,
            Err(e) => r is Err && r->Err_0@ == e,
        },
{
    match get_attribute::<i64>(name, default, node) {
        Ok(value) => Ok(value),
        Err(e) => Err(CompileError::AttributeNotFound(e)),
    }
}

/// The sequence that an optional list holds.
pub open spec fn list_view(list: Option<Vec<i64>>) -> Option<Seq<i64>> {
    match list {
        Some(l) => Some(l@),
        None => None,
    }
}

/// Reads an attribute as a list of integers.
pub fn ints_attribute(name: &str, default: Option<Vec<i64>>, node: &Node) -> (r: Result<
    Vec<i64>,
    CompileError,
>)
    ensures
        match attribute::<Vec<i64>>(node@, name@, list_view(default)) {
            Ok(value) => r is Ok && r->Ok_0@ == value,
            Err(e) => r is Err && r->Err_0@ == e,
        },
{
    proof {
        if default is Some {
            assert(default->Some_0.deep_view() =~= default->Some_0@);
        }
    }
    match get_attribute::<Vec<i64>>(name, default, node) {
        Ok(value) => {
            assert(value.deep_view() =~= value@);
            Ok(value)
        },
        Err(e) => Err(CompileError::AttributeNotFound(e)),
    }
}

/// The characters that an optional text holds.
pub open spec fn text_view(text: Option<&str>) -> Option<Seq<char>> {
    match text {
        Some(t) => Some(t@),
        None => None,
    }
}

/// Reads an attribute as a text.
pub fn text_attribute(name: &str, default: Option<&str>, node: &Node) -> (r: Result<
    String,
    CompileError,
>)
    ensures
        match attribute::<String>(node@, name@, text_view(default)) {
            Ok(value) => r is Ok && r->Ok_0@ == value,
            Err(e) => r is Err && r->Err_0@ == e,
        },
{
    let default = match default {
        Some(t) => Some(String::from_str(t)),
        None => None,
    };
    match get_attribute::<String>(name, default, node) {
        Ok(value) => Ok(value),
        Err(e) => Err(CompileError::AttributeNotFound(e)),
    }
}

/// Reads an attribute as a real number: its literal.
pub fn real_attribute(name: &str, default: Option<&str>, node: &Node) -> (r: Result<
    String,
    CompileError,
>)
    ensures
        match attribute::<Real>(node@, name@, text_view(default)) {
            Ok(value) => r is Ok && r->Ok_0@ == value,
            Err(e) => r is Err && r->Err_0@ == e,
        },
{
    let default = match default {
        Some(t) => Some(Real(String::from_str(t))),
        None => None,
    };
    match get_attribute::<Real>(name, default, node) {
        Ok(value) => Ok(value.0),
        Err(e) => Err(CompileError::AttributeNotFound(e)),
    }
}

/// Reads an attribute as a list of real numbers, an absent attribute as the
/// empty list.
pub fn reals_attribute(name: &str, node: &Node) -> (r: Result<Vec<String>, CompileError>)
    ensures
        match attribute::<Vec<Real>>(node@, name@, Some(Seq::empty())) {
            Ok(value) => r is Ok && r->Ok_0.deep_view() == value,
            Err(e) => r is Err && r->Err_0@ == e,
        },
{
    let none: Vec<Real> = Vec::new();
    assert(none.deep_view() =~= Seq::<Seq<char>>::empty());
    match get_attribute::<Vec<Real>>(name, Some(none), node) {
        Ok(value) => {
            let mut literals: Vec<String> = Vec::new();
            let mut i: usize = 0;
            while i < value.len()
                invariant
                    i <= value.len(),
                    literals@.len() == i,
                    forall|j: int| 0 <= j < i ==> (#[trigger] literals@[j])@ == value@[j].0@,
                decreases value.len() - i,
            {
                literals.push(value[i].0.clone());
                i += 1;
            }
            assert(literals.deep_view() =~= value.deep_view());
            Ok(literals)
        },
        Err(e) => Err(CompileError::AttributeNotFound(e)),
    }
}

/// The error for a node that lacks an operand that its operator works on.
pub fn missing_operand(node: &Node) -> (r: CompileError)
    ensures
        r@ == CompileErrorView::InvalidOperation(node@.op_type),
{
    CompileError::InvalidOperation(node.op_type.clone())
}

/// The selection of a template with a dispatch of the given extent.
pub fn selected(
    scalar_type: ScalarType,
    template: &'static str,
    x: u64,
    y: u64,
    z: u64,
    environment: Environment,
) -> (r: Result<Selection, CompileError>)
    ensures
        selects(
            r,
            Ok(
                NodeTemplateView {
                    scalar_type,
                    template: template@,
                    threads: (x as int, y as int, z as int),
                    bindings: environment@,
                },
            ),
        ),
{
    Ok(Selection { scalar_type, template, threads: (x as u128, y as u128, z as u128), environment })
}

fn requested(count: u128) -> (r: u32)
    ensures
        r == saturated(count as int),
{
    if count > u32::MAX as u128 {
        u32::MAX
    } else {
        count as u32
    }
}

/// Holds the number of workgroups against the limit of a dispatch and binds
/// the variables of the element type.
pub fn finish(selection: Selection) -> (r: Result<NodeTemplate, CompileError>)
    ensures
        matches_selection(r, finished(Ok(selection@))),
{
    let limit = MAX_COMPUTE_WORKGROUPS_PER_DIMENSION;
    let (x, y, z) = selection.threads;
    if x > limit as u128 {
        return Err(
            CompileError::ComputeLimitExceeded(String::from_str("X threads"), requested(x), limit),
        );
    }
    if y > limit as u128 {
        return Err(
            CompileError::ComputeLimitExceeded(String::from_str("Y threads"), requested(y), limit),
        );
    }
    if z > limit as u128 {
        return Err(
            CompileError::ComputeLimitExceeded(String::from_str("Z threads"), requested(z), limit),
        );
    }
    let scalar_type = selection.scalar_type;
    let mut environment = selection.environment;
    environment.bind("scalar_type", Value::Text(String::from_str(scalar_type.wgsl_type_name())));
    environment.bind("scalar_stride", Value::UInt(scalar_type.stride() as u64));
    environment.bind("vec4_stride", Value::UInt(MultiType::Vec(scalar_type, 4).stride() as u64));
    environment.bind(
        "mat4x4_stride",
        Value::UInt(MultiType::Mat(scalar_type, 4, 4).stride() as u64),
    );
    environment.bind("mat3x3_stride", Value::UInt(48));
    Ok(
        NodeTemplate {
            scalar_type,
            template: selection.template,
            threads: (x as u32, y as u32, z as u32),
            environment,
        },
    )
}

} // verus!
