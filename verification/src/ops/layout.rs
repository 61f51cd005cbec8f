//! Operators that move elements without computing on them: concatenation,
//! splitting and transposition. One workgroup handles 256 elements of the
//! first output.

use crate::attributes::{find_attribute, get_attribute, AttributeType, Node, NodeView};
use crate::environment::{Bindings, Environment, Value, ValueView};
use crate::error::{CompileError, CompileErrorView};
use crate::ops::pool::invalid_list;
use crate::selection::{
    agreed,
    agreed_type,
    attribute,
    int_attribute,
    ints_attribute,
    lengths,
    lengths_of,
    missing_operand,
    selected,
    selects,
    shape_views,
    NodeTemplateView,
    Selection,
};
use crate::text::{decimal, decimal_text, list_text_of};
use crate::types::{
    chunk_vector,
    dims_fit,
    element_count,
    numbers,
    signed_numbers,
    Shape,
    ShapeView,
};
use crate::workgroup::{ceil, ceil_div};
use vstd::prelude::*;
use vstd::slice::slice_subrange;
use vstd::string::*;

verus! {

/// The sum of the first `upto` lengths.
pub open spec fn running_sum(lens: Seq<int>, upto: int) -> int
    decreases upto,
{
    if upto <= 0 {
        0
    } else {
        running_sum(lens, upto - 1) + lens[upto - 1]
    }
}

/// For each input, the number of elements in it and in the inputs before it.
pub open spec fn cumulative(lens: Seq<int>) -> Seq<int> {
    Seq::new(lens.len(), |i: int| running_sum(lens, i + 1))
}

/// The first input, at or after position `from`, with which the elements no
/// longer can be counted in 64 bits.
pub open spec fn uncountable_from(lens: Seq<int>, from: int) -> Option<int>
    decreases lens.len() - from,
{
    if from < 0 || from >= lens.len() {
        None
    } else if running_sum(lens, from + 1) > u64::MAX {
        Some(from)
    } else {
        uncountable_from(lens, from + 1)
    }
}

/// Concatenation of the inputs.
pub open spec fn concat_selection(
    node: NodeView,
    inputs: Seq<ShapeView>,
    outputs: Seq<ShapeView>,
    base: Bindings,
) -> Result<NodeTemplateView, CompileErrorView> {
    if outputs.len() == 0 {
        Err(CompileErrorView::InvalidOperation(node.op_type))
    } else {
        match uncountable_from(lengths(inputs), 0) {
            Some(index) => Err(
                CompileErrorView::InvalidInputShape {
                    input_index: index,
                    input_shape: inputs[index],
                },
            ),
            None => match agreed(inputs, outputs) {
                Err(e) => Err(e),
                Ok(scalar_type) => Ok(
                    NodeTemplateView {
                        scalar_type,
                        template: "matrix/concat.wgsl"@,
                        threads: (ceil_div(element_count(outputs[0].dims), 256), 1, 1),
                        bindings: base.insert(
                            "cum_len"@,
                            ValueView::numbers(cumulative(lengths(inputs))),
                        ),
                    },
                ),
            },
        }
    }
}

/// Selects the template of a concatenation.
#[verifier::loop_isolation(false)]
pub fn select_concat(
    node: &Node,
    input_shapes: &[&Shape],
    output_shapes: &[&Shape],
    environment: Environment,
) -> (r: Result<Selection, CompileError>)
    ensures
        selects(
            r,
            concat_selection(
                node@,
                shape_views(input_shapes@),
                shape_views(output_shapes@),
                environment@,
            ),
        ),
{
    if output_shapes.len() == 0 {
        return Err(missing_operand(node));
    }
    let input_lengths = lengths_of(input_shapes);
    let ghost lens = lengths(shape_views(input_shapes@));
    let mut input_cumulative_len: Vec<u64> = Vec::new();
    let mut sum: u64 = 0;
    let mut i: usize = 0;
    while i < input_lengths.len()
        invariant
            i <= input_lengths.len(),
            input_lengths@.len() == input_shapes@.len(),
            lens == lengths(shape_views(input_shapes@)),
            numbers(input_lengths@) == lens,
            sum == running_sum(lens, i as int),
            uncountable_from(lens, 0) == uncountable_from(lens, i as int),
            input_cumulative_len@.len() == i,
            forall|j: int|
                0 <= j < i ==> input_cumulative_len@[j] as int == running_sum(lens, j + 1),
        decreases input_lengths.len() - i,
    {
        assert(numbers(input_lengths@)[i as int] == input_lengths@[i as int]);
        assert(running_sum(lens, i + 1) == running_sum(lens, i as int) + lens[i as int]);
        assert(shape_views(input_shapes@)[i as int] == input_shapes@[i as int]@);
        sum = match sum.checked_add(input_lengths[i]) {
            Some(s) => s,
            None => {
                return Err(
                    CompileError::InvalidInputShape {
                        input_index: i,
                        input_shape: input_shapes[i].clone(),
                    },
                );
            },
        };
        input_cumulative_len.push(sum);
        i += 1;
    }
    assert(numbers(input_cumulative_len@) =~= cumulative(lens));
    let mut environment = environment;
    environment.bind("cum_len", Value::UIntList(input_cumulative_len));
    let scalar_type = agreed_type(input_shapes, output_shapes)?;
    selected(
        scalar_type,
        "matrix/concat.wgsl",
        ceil(output_shapes[0].element_count(), 256),
        1,
        1,
        environment,
    )
}

/// The axis that a split works along: the attribute `axis`, to which the
/// element count of the input is added where it is negative.
pub open spec fn split_axis(axis: i64, input: ShapeView) -> int {
    if axis < 0 {
        axis + element_count(input.dims)
    } else {
        axis as int
    }
}

/// Where the attribute `split` is absent: the places at which an axis of size
/// `size` is cut into `parts` parts of equal size.
pub open spec fn default_split(size: int, parts: int) -> Seq<int> {
    Seq::new(parts as nat, |i: int| (i + 1) * (size / parts))
}

/// A split of the first input along one axis into the outputs.
pub open spec fn split_selection(
    node: NodeView,
    inputs: Seq<ShapeView>,
    outputs: Seq<ShapeView>,
    opset_version: i64,
    base: Bindings,
) -> Result<NodeTemplateView, CompileErrorView> {
    if inputs.len() == 0 || outputs.len() == 0 {
        Err(CompileErrorView::InvalidOperation(node.op_type))
    } else {
        match attribute::<i64>(node, "axis"@, Some(0i64)) {
            Err(e) => Err(e),
            Ok(given) => {
                let axis = split_axis(given, inputs[0]);
                if axis < 0 || axis >= inputs[0].dims.len() {
                    Err(
                        CompileErrorView::InvalidAttributeValue {
                            attribute: "axis"@,
                            value: decimal(given as int),
                            opset_version,
                        },
                    )
                } else {
                    let split = match find_attribute(node.attributes, "split"@) {
                        Some(value) => signed_numbers(Vec::<i64>::decoded(value)),
                        None => default_split(inputs[0].dims[axis], outputs.len() as int),
                    };
                    match agreed(inputs.subrange(0, 1), outputs.subrange(0, 1)) {
                        Err(e) => Err(e),
                        Ok(scalar_type) => Ok(
                            NodeTemplateView {
                                scalar_type,
                                template: "matrix/split.wgsl"@,
                                threads: (ceil_div(element_count(outputs[0].dims), 256), 1, 1),
                                bindings: base.insert("axis"@, ValueView::Number(axis)).insert(
                                    "split"@,
                                    ValueView::numbers(split),
                                ),
                            },
                        ),
                    }
                }
            },
        }
    }
}

/// Selects the template of a split.
pub fn select_split(
    node: &Node,
    input_shapes: &[&Shape],
    output_shapes: &[&Shape],
    opset_version: i64,
    environment: Environment,
) -> (r: Result<Selection, CompileError>)
    ensures
        selects(
            r,
            split_selection(
                node@,
                shape_views(input_shapes@),
                shape_views(output_shapes@),
                opset_version,
                environment@,
            ),
        ),
{
    if input_shapes.len() == 0 || output_shapes.len() == 0 {
        return Err(missing_operand(node));
    }
    let input = input_shapes[0];
    input.bounded();
    let given = int_attribute("axis", Some(0), node)?;
    let wide: i128 = if given < 0 {
        given as i128 + input.element_count() as i128
    } else {
        given as i128
    };
    if wide < 0 || wide >= input.rank() as i128 {
        return Err(
            CompileError::InvalidAttributeValue {
                attribute: String::from_str("axis"),
                value: decimal_text(given),
                opset_version,
            },
        );
    }
    let axis = wide as usize;
    let mut environment = environment;
    environment.bind("axis", Value::Int(wide as i64));
    match get_attribute::<Vec<i64>>("split", None, node) {
        Ok(split) => {
            assert(split.deep_view() =~= split@);
            environment.bind("split", Value::IntList(split));
        },
        Err(_) => {
            let parts = output_shapes.len();
            let size = input.dim(axis);
            let split_chunk = size / (parts as u64);
            let ghost expected = default_split(size as int, parts as int);
            let mut split: Vec<u64> = Vec::new();
            let mut end: u64 = 0;
            let mut i: usize = 0;
            while i < parts
                invariant
                    i <= parts,
                    parts > 0,
                    split_chunk == size as int / parts as int,
                    end == i * split_chunk,
                    expected == default_split(size as int, parts as int),
                    split@.len() == i,
                    forall|j: int| 0 <= j < i ==> split@[j] as int == expected[j],
                decreases parts - i,
            {
                assert((i + 1) * split_chunk <= size && (i + 1) * split_chunk == i * split_chunk
                    + split_chunk) by (nonlinear_arith)
                    requires
                        split_chunk == size as int / parts as int,
                        0 <= i < parts,
                        0 <= size,
                ;
                end = end + split_chunk;
                split.push(end);
                i += 1;
            }
            assert(numbers(split@) =~= expected);
            environment.bind("split", Value::UIntList(split));
        },
    }
    let first_input = slice_subrange(input_shapes, 0, 1);
    assert(shape_views(first_input@) =~= shape_views(input_shapes@).subrange(0, 1));
    let first_output = slice_subrange(output_shapes, 0, 1);
    assert(shape_views(first_output@) =~= shape_views(output_shapes@).subrange(0, 1));
    let scalar_type = agreed_type(first_input, first_output)?;
    selected(
        scalar_type,
        "matrix/split.wgsl",
        ceil(output_shapes[0].element_count(), 256),
        1,
        1,
        environment,
    )
}

/// The dimensions that a list of axes picks from the dimensions of a tensor.
pub open spec fn permuted_dims(perm: Seq<i64>, dims: Seq<int>) -> Seq<int> {
    Seq::new(perm.len(), |i: int| dims[perm[i] as int])
}

/// Whether every entry of `perm` is an axis of a tensor with dimensions
/// `dims`, and the dimensions it picks have products that fit in 64 bits.
pub open spec fn valid_perm(perm: Seq<i64>, dims: Seq<int>) -> bool {
    &&& forall|i: int| 0 <= i < perm.len() ==> 0 <= #[trigger] perm[i] < dims.len()
    &&& dims_fit(permuted_dims(perm, dims))
}

/// A transposition. The attribute `perm` lists, for each axis of the result,
/// the axis of the first output that it takes its size from; an absent
/// attribute is read as the empty list.
pub open spec fn transpose_selection(
    node: NodeView,
    inputs: Seq<ShapeView>,
    outputs: Seq<ShapeView>,
    opset_version: i64,
    base: Bindings,
) -> Result<NodeTemplateView, CompileErrorView> {
    if outputs.len() == 0 {
        Err(CompileErrorView::InvalidOperation(node.op_type))
    } else {
        match attribute::<Vec<i64>>(node, "perm"@, Some(Seq::empty())) {
            Err(e) => Err(e),
            Ok(perm) => if !valid_perm(perm, outputs[0].dims) {
                Err(invalid_list("perm"@, perm, opset_version))
            } else {
                match agreed(inputs, outputs) {
                    Err(e) => Err(e),
                    Ok(scalar_type) => Ok(
                        NodeTemplateView {
                            scalar_type,
                            template: "matrix/transpose.wgsl"@,
                            threads: (ceil_div(element_count(outputs[0].dims), 256), 1, 1),
                            bindings: base.insert(
                                "permuted_chunks"@,
                                ValueView::numbers(
                                    chunk_vector(permuted_dims(perm, outputs[0].dims)),
                                ),
                            ),
                        },
                    ),
                }
            },
        }
    }
}

/// Selects the template of a transposition.
#[verifier::loop_isolation(false)]
pub fn select_transpose(
    node: &Node,
    input_shapes: &[&Shape],
    output_shapes: &[&Shape],
    opset_version: i64,
    environment: Environment,
) -> (r: Result<Selection, CompileError>)
    ensures
        selects(
            r,
            transpose_selection(
                node@,
                shape_views(input_shapes@),
                shape_views(output_shapes@),
                opset_version,
                environment@,
            ),
        ),
{
    if output_shapes.len() == 0 {
        return Err(missing_operand(node));
    }
    let output = output_shapes[0];
    let perms = ints_attribute("perm", Some(Vec::new()), node)?;
    let ghost expected = permuted_dims(perms@, output@.dims);
    let mut permuted_shapes: Vec<u64> = Vec::new();
    let mut i: usize = 0;
    while i < perms.len()
        invariant
            i <= perms.len(),
            expected == permuted_dims(perms@, output@.dims),
            permuted_shapes@.len() == i,
            forall|j: int| 0 <= j < i ==> 0 <= #[trigger] perms@[j] < output@.dims.len(),
            forall|j: int| 0 <= j < i ==> permuted_shapes@[j] as int == expected[j],
        decreases perms.len() - i,
    {
        let p = perms[i];
        if p < 0 || p as u64 >= output.rank() as u64 {
            assert(!(0 <= perms@[i as int] < output@.dims.len()));
            return Err(
                CompileError::InvalidAttributeValue {
                    attribute: String::from_str("perm"),
                    value: list_text_of(&perms),
                    opset_version,
                },
            );
        }
        permuted_shapes.push(output.dim(p as usize));
        i += 1;
    }
    assert(numbers(permuted_shapes@) =~= expected);
    let chunks = match Shape::new(output.data_type(), permuted_shapes) {
        Some(permuted) => permuted.chunks(),
        None => {
            return Err(
                CompileError::InvalidAttributeValue {
                    attribute: String::from_str("perm"),
                    value: list_text_of(&perms),
                    opset_version,
                },
            );
        },
    };
    let mut environment = environment;
    environment.bind("permuted_chunks", Value::UIntList(chunks));
    let scalar_type = agreed_type(input_shapes, output_shapes)?;
    selected(
        scalar_type,
        "matrix/transpose.wgsl",
        ceil(output_shapes[0].element_count(), 256),
        1,
        1,
        environment,
    )
}

} // verus!
