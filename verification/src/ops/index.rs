//! Operators that look elements up by index: one-hot encoding and gathering.

use crate::attributes::{Node, NodeView};
use crate::environment::{Bindings, Environment, Value, ValueView};
use crate::error::{CompileError, CompileErrorView};
use crate::selection::{
    agreed,
    agreed_type,
    attribute,
    int_attribute,
    missing_operand,
    selected,
    selects,
    shape_views,
    NodeTemplateView,
    Selection,
};
use crate::text::{append_decimal, decimal};
use crate::types::{
    chunk_vector,
    element_count,
    multi_type_elements,
    multi_type_for_size,
    multi_type_name,
    numbers,
    MultiType,
    Shape,
    ShapeView,
};
use crate::workgroup::{
    ceil,
    ceil_div,
    workgroup_size,
    workgroup_split,
    MAX_COMPUTE_WORKGROUPS_PER_DIMENSION,
    MAX_WORKGROUP_SIZE_X,
    MAX_WORKGROUP_SIZE_Y,
};
use vstd::prelude::*;
use vstd::slice::slice_subrange;
use vstd::string::*;

verus! {

/// The error for an axis that an operator is not implemented for.
pub open spec fn unimplemented_axis(op: Seq<char>, axis: i64) -> CompileErrorView {
    CompileErrorView::UnimplementedVariant { variant: "axis="@ + decimal(axis as int), op }
}

/// The error for an axis that an operator is not implemented for.
pub fn unimplemented_axis_of(op: &str, axis: i64) -> (r: CompileError)
    ensures
        r@ == unimplemented_axis(op@, axis),
{
    let mut variant = String::from_str("axis=");
    append_decimal(&mut variant, axis);
    CompileError::UnimplementedVariant { variant, op: String::from_str(op) }
}

/// One-hot encoding along the last axis. The second input, the depth, holds
/// one element, and the third, the two values, holds two. One invocation
/// handles one index.
pub open spec fn one_hot_selection(
    node: NodeView,
    inputs: Seq<ShapeView>,
    outputs: Seq<ShapeView>,
    base: Bindings,
) -> Result<NodeTemplateView, CompileErrorView> {
    if inputs.len() < 3 || outputs.len() == 0 {
        Err(CompileErrorView::InvalidOperation(node.op_type))
    } else {
        match attribute::<i64>(node, "axis"@, Some(-1i64)) {
            Err(e) => Err(e),
            Ok(axis) => if axis != -1 {
                Err(unimplemented_axis("OneHot"@, axis))
            } else if element_count(inputs[1].dims) != 1 {
                Err(CompileErrorView::InvalidInputShape { input_index: 1, input_shape: inputs[1] })
            } else if element_count(inputs[2].dims) != 2 {
                Err(CompileErrorView::InvalidInputShape { input_index: 2, input_shape: inputs[2] })
            } else {
                match workgroup_split(
                    element_count(inputs[0].dims),
                    MAX_COMPUTE_WORKGROUPS_PER_DIMENSION as int,
                    MAX_WORKGROUP_SIZE_X as int,
                ) {
                    Err(e) => Err(e),
                    Ok((threads, group)) => Ok(
                        NodeTemplateView {
                            scalar_type: outputs[0].data_type,
                            template: "endomorphism/onehot.wgsl"@,
                            threads: (threads, 1, 1),
                            bindings: base.insert("workgroup_size_x"@, ValueView::Number(group)),
                        },
                    ),
                }
            },
        }
    }
}

/// Selects the template of a one-hot encoding.
pub fn select_one_hot(
    node: &Node,
    input_shapes: &[&Shape],
    output_shapes: &[&Shape],
    environment: Environment,
) -> (r: Result<Selection, CompileError>)
    ensures
        selects(
            r,
            one_hot_selection(
                node@,
                shape_views(input_shapes@),
                shape_views(output_shapes@),
                environment@,
            ),
        ),
{
    if input_shapes.len() < 3 || output_shapes.len() == 0 {
        return Err(missing_operand(node));
    }
    let axis = int_attribute("axis", Some(-1), node)?;
    if axis != -1 {
        return Err(unimplemented_axis_of("OneHot", axis));
    }
    if input_shapes[1].element_count() != 1 {
        let input_shape = input_shapes[1].clone();
        return Err(CompileError::InvalidInputShape { input_index: 1, input_shape });
    }
    if input_shapes[2].element_count() != 2 {
        let input_shape = input_shapes[2].clone();
        return Err(CompileError::InvalidInputShape { input_index: 2, input_shape });
    }
    let (x_threads, workgroup_size_x) = workgroup_size(
        input_shapes[0].element_count(),
        MAX_COMPUTE_WORKGROUPS_PER_DIMENSION,
        MAX_WORKGROUP_SIZE_X,
    )?;
    let mut environment = environment;
    environment.bind("workgroup_size_x", Value::UInt(workgroup_size_x as u64));
    selected(
        output_shapes[0].data_type(),
        "endomorphism/onehot.wgsl",
        x_threads as u64,
        1,
        1,
        environment,
    )
}

/// The variables of a gathering: the packed type in which elements are
/// copied, the number of elements in it, and the sizes of a workgroup.
pub open spec fn gather_bindings(base: Bindings, chunk_type: MultiType, x_group: int, y_group: int)
    -> Bindings {
    base.insert("chunk_type"@, ValueView::Text(multi_type_name(chunk_type))).insert(
        "chunk_size"@,
        ValueView::Number(multi_type_elements(chunk_type)),
    ).insert("workgroup_size_x"@, ValueView::Number(x_group)).insert(
        "workgroup_size_y"@,
        ValueView::Number(y_group),
    )
}

/// Gathering along the first axis: the first input is the data, the second
/// the indices. The x dimension runs over the indices, the y dimension over
/// the elements of the data that one index selects, in the widest packed type
/// that divides their number.
pub open spec fn gather_selection(
    node: NodeView,
    inputs: Seq<ShapeView>,
    outputs: Seq<ShapeView>,
    base: Bindings,
) -> Result<NodeTemplateView, CompileErrorView> {
    if inputs.len() < 2 {
        Err(CompileErrorView::InvalidOperation(node.op_type))
    } else {
        match attribute::<i64>(node, "axis"@, Some(0i64)) {
            Err(e) => Err(e),
            Ok(axis) => if axis != 0 {
                Err(unimplemented_axis("Gather"@, axis))
            } else {
                let elements_per_index = chunk_vector(inputs[0].dims)[0];
                match agreed(inputs.subrange(0, 1), outputs) {
                    Err(e) => Err(e),
                    Ok(scalar_type) => {
                        let chunk_type = multi_type_for_size(elements_per_index, scalar_type);
                        let chunk_size = multi_type_elements(chunk_type);
                        match workgroup_split(
                            element_count(inputs[1].dims),
                            MAX_COMPUTE_WORKGROUPS_PER_DIMENSION as int,
                            MAX_WORKGROUP_SIZE_X as int,
                        ) {
                            Err(e) => Err(e),
                            Ok((x_threads, x_group)) => match workgroup_split(
                                ceil_div(elements_per_index, chunk_size),
                                MAX_COMPUTE_WORKGROUPS_PER_DIMENSION as int,
                                MAX_WORKGROUP_SIZE_Y as int,
                            ) {
                                Err(e) => Err(e),
                                Ok((y_threads, y_group)) => Ok(
                                    NodeTemplateView {
                                        scalar_type,
                                        template: "endomorphism/gather.wgsl"@,
                                        threads: (x_threads, y_threads, 1),
                                        bindings: gather_bindings(
                                            base,
                                            chunk_type,
                                            x_group,
                                            y_group,
                                        ),
                                    },
                                ),
                            },
                        }
                    },
                }
            },
        }
    }
}

/// Selects the template of a gathering.
pub fn select_gather(
    node: &Node,
    input_shapes: &[&Shape],
    output_shapes: &[&Shape],
    environment: Environment,
) -> (r: Result<Selection, CompileError>)
    ensures
        selects(
            r,
            gather_selection(
                node@,
                shape_views(input_shapes@),
                shape_views(output_shapes@),
                environment@,
            ),
        ),
{
    if input_shapes.len() < 2 {
        return Err(missing_operand(node));
    }
    let axis = int_attribute("axis", Some(0), node)?;
    if axis != 0 {
        return Err(unimplemented_axis_of("Gather", axis));
    }
    let chunks = input_shapes[0].chunks();
    assert(chunk_vector(input_shapes@[0]@.dims).len() >= 1);
    assert(numbers(chunks@).len() == chunks@.len());
    assert(numbers(chunks@)[0] == chunks@[0]);
    let elements_per_index = chunks[0];
    let first_input = slice_subrange(input_shapes, 0, 1);
    assert(shape_views(first_input@) =~= shape_views(input_shapes@).subrange(0, 1));
    let scalar_type = agreed_type(first_input, output_shapes)?;
    let chunk_type = MultiType::for_size(elements_per_index, scalar_type);
    let chunk_size = chunk_type.elements();
    let (x_threads, workgroup_size_x) = workgroup_size(
        input_shapes[1].element_count(),
        MAX_COMPUTE_WORKGROUPS_PER_DIMENSION,
        MAX_WORKGROUP_SIZE_X,
    )?;
    let (y_threads, workgroup_size_y) = workgroup_size(
        ceil(elements_per_index, chunk_size as u64),
        MAX_COMPUTE_WORKGROUPS_PER_DIMENSION,
        MAX_WORKGROUP_SIZE_Y,
    )?;
    let mut environment = environment;
    environment.bind("chunk_type", Value::Text(chunk_type.wgsl_type_name()));
    environment.bind("chunk_size", Value::UInt(chunk_size as u64));
    environment.bind("workgroup_size_x", Value::UInt(workgroup_size_x as u64));
    environment.bind("workgroup_size_y", Value::UInt(workgroup_size_y as u64));
    selected(
        scalar_type,
        "endomorphism/gather.wgsl",
        x_threads as u64,
        y_threads as u64,
        1,
        environment,
    )
}

} // verus!
